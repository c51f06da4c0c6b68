//! The bridge from a stream of completion events to one awaited result.
//!
//! A call begins an enumeration and gets a request handle. Completion events
//! for any request may then arrive, in any order, until the wait ends. The
//! bridge picks out the first event that carries its own handle, and when
//! the wait is over it says what to do: fetch the items, or fail.
//!
//! The bridge itself neither waits nor subscribes. Its owner registers a
//! listener once `begin` has succeeded, feeds each event to `deliver`, and
//! calls `finish_wait` when the channel fires or the timer runs out,
//! whichever is first. A conclusion other than `Spent` tells the owner to
//! release the listener before it does anything else.

use vstd::prelude::*;
use crate::error::{ErrorKind, HostError, Message, PlatformError};
use crate::inventory::{get_result_items, items_outcome_spec, items_view};
use crate::item::{JsInventoryItem, PlatformItem};

verus! {

/// The bound on the wait, in milliseconds, where none is configured.
pub const DEFAULT_TIMEOUT_MS: u64 = 10_000;

/// The bound on the wait, in milliseconds: the configured one, or the
/// default.
pub fn timeout_ms(configured: Option<u64>) -> (ms: u64)
    ensures
        ms == match configured {
            Some(bound) => bound,
            None => DEFAULT_TIMEOUT_MS,
        },
{
    match configured {
        Some(bound) => bound,
        None => DEFAULT_TIMEOUT_MS,
    }
}

/// A notification that some request has completed.
#[derive(Clone, Copy, Debug, PartialEq, Eq)]
pub struct CompletionEvent {
    /// The handle of the request that completed.
    pub handle: i32,
    /// How it completed.
    pub outcome: Result<(), PlatformError>,
}

/// Where a bridge stands.
#[derive(Clone, Copy, Debug, PartialEq, Eq)]
pub enum Phase {
    /// The listener is registered and no matching event has arrived.
    Pending,
    /// The matching event has arrived; its outcome waits to be picked up.
    /// The listener is still registered but takes no further action.
    Resolved(Result<(), PlatformError>),
    /// The wait is over and the listener has been released.
    Retired,
}

/// What the owner does when the wait is over.
#[derive(Clone, Copy, Debug, PartialEq, Eq)]
pub enum Conclusion {
    /// Release the listener, then fetch the items behind this handle.
    Fetch(i32),
    /// Release the listener, then fail with this error.
    Fail(HostError),
    /// The bridge had already concluded: there is nothing to release and
    /// nothing to return.
    Spent,
}

/// Something that happens to a bridge while its call is in flight.
#[derive(Clone, Copy, Debug, PartialEq, Eq)]
pub enum Signal {
    /// The platform delivered a completion event.
    Completion(CompletionEvent),
    /// The wait ended, because the channel fired or the timer ran out.
    WaitOver,
}

/// The state of one awaited enumeration.
#[derive(Clone, Copy, Debug, PartialEq, Eq)]
pub struct Bridge {
    /// The handle of the request this bridge was begun for.
    pub expected: i32,
    pub phase: Phase,
}

impl Conclusion {
    /// Whether this conclusion tells the owner to release the listener.
    pub open spec fn releases_listener_spec(self) -> bool {
        !(self is Spent)
    }

    /// Whether this conclusion tells the owner to release the listener.
    pub fn releases_listener(&self) -> (release: bool)
        ensures
            release == self.releases_listener_spec(),
    {
        match self {
            Conclusion::Spent => false,
            Conclusion::Fetch(_) => true,
            Conclusion::Fail(_) => true,
        }
    }

    /// Carries a conclusion out, once the listener has been released.
    ///
    /// A fetch goes through `fetch`, for the concluded handle and for no
    /// other, and yields the items in the platform's order or the translated
    /// failure. A failure is returned as it is. A spent bridge yields
    /// nothing.
    pub fn complete<F: FnOnce(i32) -> Result<Vec<PlatformItem>, PlatformError>>(
        self,
        fetch: F,
    ) -> (res: Option<Result<Vec<JsInventoryItem>, HostError>>)
        requires
            self matches Conclusion::Fetch(handle) ==> fetch.requires((handle,)),
        ensures
            self is Spent <==> res is None,
            self matches Conclusion::Fail(err) ==> res == Some(
                Err::<Vec<JsInventoryItem>, HostError>(err),
            ),
            self matches Conclusion::Fetch(handle) ==> exists|
                fetched: Result<Vec<PlatformItem>, PlatformError>,
            |
                #[trigger] fetch.ensures((handle,), fetched) && res is Some && items_view(
                    res->Some_0,
                ) == items_outcome_spec(fetched),
    {
        match self {
            Conclusion::Fetch(handle) => Some(get_result_items(handle, fetch)),
            Conclusion::Fail(err) => Some(Err(err)),
            Conclusion::Spent => None,
        }
    }
}

impl Bridge {
    /// A bridge that waits for the completion of request `handle`.
    pub open spec fn pending(handle: i32) -> Bridge {
        Bridge { expected: handle, phase: Phase::Pending }
    }

    /// Whether the listener is registered with the platform.
    pub open spec fn listening(self) -> bool {
        !(self.phase is Retired)
    }

    /// Whether `event` is the one this bridge resolves on: it carries the
    /// expected handle and nothing has been delivered before it.
    pub open spec fn accepts(self, event: CompletionEvent) -> bool {
        self.phase is Pending && event.handle == self.expected
    }

    /// The bridge after `event` has been delivered to its listener.
    pub open spec fn after_event(self, event: CompletionEvent) -> Bridge {
        if self.accepts(event) {
            Bridge { expected: self.expected, phase: Phase::Resolved(event.outcome) }
        } else {
            self
        }
    }

    /// The bridge after the wait has ended.
    pub open spec fn retired(self) -> Bridge {
        Bridge { expected: self.expected, phase: Phase::Retired }
    }

    /// What the owner is told when the wait ends in this state.
    pub open spec fn conclusion(self) -> Conclusion {
        match self.phase {
            Phase::Pending => Conclusion::Fail(HostError::timed_out()),
            Phase::Resolved(Ok(())) => Conclusion::Fetch(self.expected),
            Phase::Resolved(Err(_)) => Conclusion::Fail(HostError::operation_failed()),
            Phase::Retired => Conclusion::Spent,
        }
    }

    /// The bridge after every event of `events`, delivered in order.
    pub open spec fn after_events(self, events: Seq<CompletionEvent>) -> Bridge
        decreases events.len(),
    {
        if events.len() == 0 {
            self
        } else {
            self.after_events(events.drop_last()).after_event(events.last())
        }
    }

    /// The bridge after one signal.
    pub open spec fn after_signal(self, signal: Signal) -> Bridge {
        match signal {
            Signal::Completion(event) => self.after_event(event),
            Signal::WaitOver => self.retired(),
        }
    }

    /// The bridge after every signal of `signals`, in order.
    pub open spec fn after_signals(self, signals: Seq<Signal>) -> Bridge
        decreases signals.len(),
    {
        if signals.len() == 0 {
            self
        } else {
            self.after_signals(signals.drop_last()).after_signal(signals.last())
        }
    }

    /// How often the listener delivers into the channel while `signals` are
    /// handled in order.
    pub open spec fn deliveries(self, signals: Seq<Signal>) -> nat
        decreases signals.len(),
    {
        if signals.len() == 0 {
            0
        } else {
            let before = self.after_signals(signals.drop_last());
            let now: nat = match signals.last() {
                Signal::Completion(event) => if before.accepts(event) {
                    1
                } else {
                    0
                },
                Signal::WaitOver => 0,
            };
            self.deliveries(signals.drop_last()) + now
        }
    }

    /// How often the owner is told to release the listener while `signals`
    /// are handled in order.
    pub open spec fn releases(self, signals: Seq<Signal>) -> nat
        decreases signals.len(),
    {
        if signals.len() == 0 {
            0
        } else {
            let before = self.after_signals(signals.drop_last());
            let now: nat = if signals.last() is WaitOver
                && before.conclusion().releases_listener_spec() {
                1
            } else {
                0
            };
            self.releases(signals.drop_last()) + now
        }
    }

    /// Takes the platform's answer to "begin enumeration".
    ///
    /// On a handle the bridge starts out pending, and its owner registers
    /// the listener. On a failure there is no bridge, so no listener is
    /// ever registered, and the call fails at once.
    pub fn begin(requested: Result<i32, PlatformError>) -> (res: Result<Bridge, HostError>)
        ensures
            res == match requested {
                Ok(handle) => Ok::<Bridge, HostError>(Bridge::pending(handle)),
                Err(_) => Err::<Bridge, HostError>(HostError::operation_failed()),
            },
    {
        match requested {
            Ok(handle) => Ok(Bridge { expected: handle, phase: Phase::Pending }),
            Err(_) => Err(
                HostError { kind: ErrorKind::OperationFailed, message: Message::OperationIncomplete },
            ),
        }
    }

    /// Handles one completion event in the listener.
    ///
    /// Returns `true` when this event resolved the bridge, so that the
    /// awaiting side is to be woken. An event for another request, a second
    /// event for this one and an event after the wait has ended all leave
    /// the bridge as it was.
    pub fn deliver(&mut self, event: CompletionEvent) -> (resolved: bool)
        ensures
            resolved == old(self).accepts(event),
            *final(self) == old(self).after_event(event),
    {
        match self.phase {
            Phase::Pending => {
                if event.handle == self.expected {
                    self.phase = Phase::Resolved(event.outcome);
                    true
                } else {
                    false
                }
            },
            Phase::Resolved(_) => false,
            Phase::Retired => false,
        }
    }

    /// Handles a batch of completion events in the listener, in order.
    ///
    /// Returns `true` when one of them resolved the bridge.
    pub fn deliver_all(&mut self, events: &Vec<CompletionEvent>) -> (resolved: bool)
        ensures
            *final(self) == old(self).after_events(events@),
            resolved == (old(self).phase is Pending && !(final(self).phase is Pending)),
    {
        let mut resolved = false;
        let mut i: usize = 0;
        while i < events.len()
            invariant
                i <= events@.len(),
                *self == old(self).after_events(events@.take(i as int)),
                resolved == (old(self).phase is Pending && !(self.phase is Pending)),
                self.phase is Pending ==> old(self).phase is Pending,
            decreases events@.len() - i,
        {
            proof {
                assert(events@.take(i + 1).drop_last() =~= events@.take(i as int));
            }
            let hit = self.deliver(events[i]);
            resolved = resolved || hit;
            i += 1;
        }
        proof {
            assert(events@.take(i as int) =~= events@);
        }
        resolved
    }

    /// Handles one signal, for an owner that takes events and the end of the
    /// wait from one queue: an event goes to the listener and concludes
    /// nothing, the end of the wait yields the conclusion.
    pub fn on_signal(&mut self, signal: Signal) -> (conclusion: Option<Conclusion>)
        ensures
            *final(self) == old(self).after_signal(signal),
            conclusion == match signal {
                Signal::Completion(_) => None::<Conclusion>,
                Signal::WaitOver => Some(old(self).conclusion()),
            },
    {
        match signal {
            Signal::Completion(event) => {
                self.deliver(event);
                None
            },
            Signal::WaitOver => Some(self.finish_wait()),
        }
    }

    /// Ends the wait and says what follows from it.
    ///
    /// With nothing delivered the wait has timed out. With an outcome
    /// delivered, success leads to the fetch for the expected handle and a
    /// failure to an operation-failed error. In each of these cases the
    /// listener is released; from then on the bridge is retired and every
    /// further call returns `Spent`.
    pub fn finish_wait(&mut self) -> (conclusion: Conclusion)
        ensures
            conclusion == old(self).conclusion(),
            *final(self) == old(self).retired(),
    {
        let conclusion = match self.phase {
            Phase::Pending => Conclusion::Fail(
                HostError { kind: ErrorKind::Timeout, message: Message::TimedOut },
            ),
            Phase::Resolved(Ok(())) => Conclusion::Fetch(self.expected),
            Phase::Resolved(Err(_)) => Conclusion::Fail(
                HostError { kind: ErrorKind::OperationFailed, message: Message::OperationIncomplete },
            ),
            Phase::Retired => Conclusion::Spent,
        };
        self.phase = Phase::Retired;
        conclusion
    }
}

/// Events for other requests are ignored: a stream in which no event
/// carries the expected handle leaves the bridge exactly as it was.
pub proof fn lemma_foreign_events_ignored(bridge: Bridge, events: Seq<CompletionEvent>)
    requires
        forall|i: int| 0 <= i < events.len() ==> (#[trigger] events[i]).handle != bridge.expected,
    ensures
        bridge.after_events(events) == bridge,
    decreases events.len(),
{
    if events.len() > 0 {
        lemma_foreign_events_ignored(bridge, events.drop_last());
    }
}

/// Only the first matching event is honoured: a pending bridge ends up
/// resolved with the outcome of the first event that carries its handle,
/// whatever comes before or after it.
pub proof fn lemma_first_match_wins(bridge: Bridge, events: Seq<CompletionEvent>, first: int)
    requires
        bridge.phase is Pending,
        0 <= first < events.len(),
        events[first].handle == bridge.expected,
        forall|i: int| 0 <= i < first ==> (#[trigger] events[i]).handle != bridge.expected,
    ensures
        bridge.after_events(events) == (Bridge {
            expected: bridge.expected,
            phase: Phase::Resolved(events[first].outcome),
        }),
    decreases events.len(),
{
    let earlier = events.drop_last();
    if first == events.len() - 1 {
        lemma_foreign_events_ignored(bridge, earlier);
    } else {
        lemma_first_match_wins(bridge, earlier, first);
    }
}

/// Handle correlation: when a bridge that was begun for some handle
/// concludes with a fetch, the fetch is for that handle, and an event with
/// that handle and a successful outcome was among those delivered.
pub proof fn lemma_fetches_own_handle(handle: i32, events: Seq<CompletionEvent>)
    ensures
        forall|h: i32|
            Bridge::pending(handle).after_events(events).conclusion() == Conclusion::Fetch(h) ==> {
                &&& h == handle
                &&& exists|i: int|
                    0 <= i < events.len() && (#[trigger] events[i]).handle == handle
                        && events[i].outcome is Ok
            },
        Bridge::pending(handle).after_events(events).expected == handle,
    decreases events.len(),
{
    if events.len() > 0 {
        let earlier = events.drop_last();
        lemma_fetches_own_handle(handle, earlier);
        let before = Bridge::pending(handle).after_events(earlier);
        if before.conclusion() == Conclusion::Fetch(handle) {
            let i = choose|i: int|
                0 <= i < earlier.len() && (#[trigger] earlier[i]).handle == handle
                    && earlier[i].outcome is Ok;
            assert(events[i] == earlier[i]);
        }
    }
}

/// The events of `events` that carry `handle`, in their order.
pub open spec fn events_for(events: Seq<CompletionEvent>, handle: i32) -> Seq<CompletionEvent> {
    events.filter(|e: CompletionEvent| e.handle == handle)
}

/// Two calls in flight do not cross: a bridge is moved by the events that
/// carry its own handle and by no others, so the events of every other
/// request can be taken out of the stream without changing where the bridge
/// ends up.
pub proof fn lemma_other_requests_do_not_interfere(
    bridge: Bridge,
    events: Seq<CompletionEvent>,
)
    ensures
        bridge.after_events(events) == bridge.after_events(events_for(events, bridge.expected)),
        bridge.after_events(events).expected == bridge.expected,
    decreases events.len(),
{
    reveal(Seq::filter);
    if events.len() > 0 {
        let earlier = events.drop_last();
        lemma_other_requests_do_not_interfere(bridge, earlier);
        if events.last().handle == bridge.expected {
            assert(events_for(events, bridge.expected).drop_last() =~= events_for(
                earlier,
                bridge.expected,
            ));
        }
    }
}

/// One event resolves at most one of two bridges that wait for different
/// requests.
pub proof fn lemma_event_resolves_one_call(a: Bridge, b: Bridge, event: CompletionEvent)
    requires
        a.expected != b.expected,
    ensures
        !(a.accepts(event) && b.accepts(event)),
{
}

/// The listener is released exactly once per call, on every path: however
/// events and the end of the wait interleave, a bridge whose listener was
/// registered has told its owner to release it once if the wait has ended,
/// and not at all if it has not. The wait has ended as soon as one signal
/// said so.
pub proof fn lemma_released_exactly_once(bridge: Bridge, signals: Seq<Signal>)
    requires
        bridge.listening(),
    ensures
        bridge.after_signals(signals).listening() ==> bridge.releases(signals) == 0,
        !bridge.after_signals(signals).listening() ==> bridge.releases(signals) == 1,
        bridge.after_signals(signals).listening() <==> forall|i: int|
            0 <= i < signals.len() ==> !((#[trigger] signals[i]) is WaitOver),
    decreases signals.len(),
{
    if signals.len() > 0 {
        let earlier = signals.drop_last();
        lemma_released_exactly_once(bridge, earlier);
        if bridge.after_signals(signals).listening() {
            assert forall|i: int| 0 <= i < signals.len() implies !((#[trigger] signals[i])
                is WaitOver) by {
                if i < earlier.len() {
                    assert(signals[i] == earlier[i]);
                }
            }
        } else {
            if !bridge.after_signals(earlier).listening() {
                let i = choose|i: int| 0 <= i < earlier.len() && (#[trigger] earlier[i]) is WaitOver;
                assert(signals[i] == earlier[i]);
            }
        }
    }
}

/// The channel is single-fire: however many events carry the expected
/// handle, and wherever the end of the wait falls among them, the listener
/// delivers at most once, and never while or after the bridge is anything
/// but pending.
pub proof fn lemma_at_most_one_delivery(bridge: Bridge, signals: Seq<Signal>)
    ensures
        bridge.deliveries(signals) <= 1,
        bridge.after_signals(signals).phase is Pending ==> bridge.deliveries(signals) == 0,
        !(bridge.phase is Pending) ==> bridge.deliveries(signals) == 0,
    decreases signals.len(),
{
    if signals.len() > 0 {
        lemma_at_most_one_delivery(bridge, signals.drop_last());
        lemma_pending_is_never_regained(bridge, signals.drop_last());
    }
}

/// A bridge never goes back to pending: one that has left that phase stays
/// out of it, and its expected handle never changes.
pub proof fn lemma_pending_is_never_regained(bridge: Bridge, signals: Seq<Signal>)
    ensures
        bridge.after_signals(signals).phase is Pending ==> bridge.phase is Pending,
        bridge.after_signals(signals).expected == bridge.expected,
    decreases signals.len(),
{
    if signals.len() > 0 {
        lemma_pending_is_never_regained(bridge, signals.drop_last());
    }
}

/// A wait that sees no matching event times out, and what arrives late does
/// no harm: the conclusion is the timeout error with the listener released,
/// and after it no event, matching or not, moves the bridge or leads to a
/// second release.
pub proof fn lemma_timeout_and_late_events(
    handle: i32,
    seen: Seq<CompletionEvent>,
    late: Seq<CompletionEvent>,
)
    requires
        forall|i: int| 0 <= i < seen.len() ==> (#[trigger] seen[i]).handle != handle,
    ensures
        Bridge::pending(handle).after_events(seen).conclusion() == Conclusion::Fail(
            HostError::timed_out(),
        ),
        Bridge::pending(handle).after_events(seen).conclusion().releases_listener_spec(),
        Bridge::pending(handle).after_events(seen).retired().after_events(late)
            == Bridge::pending(handle).retired(),
        Bridge::pending(handle).retired().conclusion() == Conclusion::Spent,
    decreases late.len(),
{
    lemma_foreign_events_ignored(Bridge::pending(handle), seen);
    if late.len() > 0 {
        lemma_timeout_and_late_events(handle, seen, late.drop_last());
    }
}

} // verus!
