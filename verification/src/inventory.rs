//! The synchronous operations: begin an enumeration, fetch the items of a
//! result, start a purchase.
//!
//! Each operation takes the platform call it needs as a closure, so the
//! subsystem is passed in rather than reached for. What each operation makes
//! of the platform's answer is a function of its own, stated exactly.

use vstd::prelude::*;
use crate::error::{ErrorKind, HostError, Message, Operation, PlatformError};
use crate::item::{project, project_items, JsInventoryItem, PlatformItem};

verus! {

/// What the host receives for the platform's answer to "begin enumeration".
pub open spec fn handle_outcome_spec(requested: Result<i32, PlatformError>) -> Result<
    i32,
    HostError,
> {
    match requested {
        Ok(handle) => Ok(handle),
        Err(e) => Err(HostError::of_platform(Operation::Query, e)),
    }
}

/// What the host receives for the platform's answer to "fetch items", with
/// the items taken as a sequence.
pub open spec fn items_outcome_spec(fetched: Result<Vec<PlatformItem>, PlatformError>) -> Result<
    Seq<JsInventoryItem>,
    HostError,
> {
    match fetched {
        Ok(items) => Ok(project(items@)),
        Err(e) => Err(HostError::of_platform(Operation::Query, e)),
    }
}

/// A result of items, with the items taken as a sequence.
pub open spec fn items_view(res: Result<Vec<JsInventoryItem>, HostError>) -> Result<
    Seq<JsInventoryItem>,
    HostError,
> {
    match res {
        Ok(items) => Ok(items@),
        Err(e) => Err(e),
    }
}

/// The platform's unsigned call identifier as the signed 64-bit integer with
/// the same bit pattern.
pub open spec fn call_id_spec(call: u64) -> int {
    if call <= i64::MAX {
        call as int
    } else {
        call - 0x1_0000_0000_0000_0000
    }
}

/// What the host receives for the platform's answer to "begin purchase".
pub open spec fn purchase_outcome_spec(started: Result<u64, PlatformError>) -> Result<
    i64,
    HostError,
> {
    match started {
        Ok(call) => Ok(call_id_spec(call) as i64),
        Err(e) => Err(HostError::of_platform(Operation::Purchase, e)),
    }
}

/// Passes a request handle through, or translates the platform's failure.
pub fn handle_outcome(requested: Result<i32, PlatformError>) -> (res: Result<i32, HostError>)
    ensures
        res == handle_outcome_spec(requested),
{
    match requested {
        Ok(handle) => Ok(handle),
        Err(e) => Err(HostError::from_platform(Operation::Query, e)),
    }
}

/// Projects the fetched items in their order, or translates the platform's
/// failure. There is no partial success: the result is either every item or
/// an error.
pub fn items_outcome(fetched: Result<Vec<PlatformItem>, PlatformError>) -> (res: Result<
    Vec<JsInventoryItem>,
    HostError,
>)
    ensures
        items_view(res) == items_outcome_spec(fetched),
{
    match fetched {
        Ok(items) => Ok(project_items(&items)),
        Err(e) => Err(HostError::from_platform(Operation::Query, e)),
    }
}

/// Reinterprets the platform's call identifier as a signed integer.
pub fn call_id(call: u64) -> (id: i64)
    ensures
        id == call_id_spec(call),
{
    if call <= 0x7fff_ffff_ffff_ffff {
        call as i64
    } else {
        let low: u64 = call - 0x8000_0000_0000_0000;
        (low as i64) + i64::MIN
    }
}

/// Hands the call identifier of a started purchase to the host, or
/// translates the platform's failure.
pub fn purchase_outcome(started: Result<u64, PlatformError>) -> (res: Result<i64, HostError>)
    ensures
        res == purchase_outcome_spec(started),
{
    match started {
        Ok(call) => Ok(call_id(call)),
        Err(e) => Err(HostError::from_platform(Operation::Purchase, e)),
    }
}

/// Begins an enumeration of the whole inventory through `begin` and returns
/// the request handle.
///
/// Whatever `begin` answers, the result is `handle_outcome_spec` of that
/// answer.
pub fn get_all_items<F: FnOnce() -> Result<i32, PlatformError>>(begin: F) -> (res: Result<
    i32,
    HostError,
>)
    requires
        begin.requires(()),
    ensures
        exists|requested: Result<i32, PlatformError>|
            #[trigger] begin.ensures((), requested) && res == handle_outcome_spec(requested),
{
    let requested = begin();
    handle_outcome(requested)
}

/// Fetches the items behind `result_handle` through `fetch`.
///
/// `fetch` is called with exactly that handle, and whatever it answers, the
/// result is `items_outcome_spec` of that answer: the same items, in the
/// same order, or the translated failure.
pub fn get_result_items<F: FnOnce(i32) -> Result<Vec<PlatformItem>, PlatformError>>(
    result_handle: i32,
    fetch: F,
) -> (res: Result<Vec<JsInventoryItem>, HostError>)
    requires
        fetch.requires((result_handle,)),
    ensures
        exists|fetched: Result<Vec<PlatformItem>, PlatformError>|
            #[trigger] fetch.ensures((result_handle,), fetched) && items_view(res)
                == items_outcome_spec(fetched),
{
    let fetched = fetch(result_handle);
    items_outcome(fetched)
}

/// Starts a purchase of `item_defs[i]` in quantity `quantities[i]`, for each
/// position `i`, through `forward`.
///
/// Sequences of different lengths are refused with an invalid-argument
/// error. Nothing is asked of `forward` for such sequences, so it cannot
/// be called with them: the refusal happens without a platform call.
/// Otherwise `forward` gets both sequences as they came, and the result is
/// `purchase_outcome_spec` of its answer.
pub fn start_purchase<F: FnOnce(Vec<i32>, Vec<u32>) -> Result<u64, PlatformError>>(
    item_defs: Vec<i32>,
    quantities: Vec<u32>,
    forward: F,
) -> (res: Result<i64, HostError>)
    requires
        item_defs@.len() == quantities@.len() ==> forward.requires((item_defs, quantities)),
    ensures
        item_defs@.len() != quantities@.len() ==> res == Err::<i64, HostError>(
            HostError::mismatched_lengths(),
        ),
        item_defs@.len() == quantities@.len() ==> exists|started: Result<u64, PlatformError>|
            #[trigger] forward.ensures((item_defs, quantities), started) && res
                == purchase_outcome_spec(started),
{
    if item_defs.len() != quantities.len() {
        return Err(
            HostError { kind: ErrorKind::InvalidArgument, message: Message::MismatchedLengths },
        );
    }
    let started = forward(item_defs, quantities);
    purchase_outcome(started)
}

/// Fetching the result of an enumeration gives what the platform gave: the
/// handle comes back as the platform issued it, and for the items fetched
/// behind it the host receives as many, each at its position, with every
/// field as the platform reported it.
pub proof fn lemma_fetch_keeps_platform_order(handle: i32, items: Vec<PlatformItem>)
    ensures
        handle_outcome_spec(Ok(handle)) == Ok::<i32, HostError>(handle),
        items_outcome_spec(Ok(items)) matches Ok(out) && out.len() == items@.len() && forall|
            i: int,
        |
            0 <= i < out.len() ==> #[trigger] out[i] == JsInventoryItem::of(items@[i]),
{
}

} // verus!
