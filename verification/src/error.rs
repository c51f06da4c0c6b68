//! The error vocabulary: what the platform reports, and what the host sees.

use vstd::prelude::*;

verus! {

/// How the platform's inventory subsystem classifies a failure.
#[derive(Clone, Copy, Debug, PartialEq, Eq)]
pub enum PlatformError {
    /// The request could not be started or did not complete.
    OperationFailed,
    /// The items behind a result handle could not be read.
    GetResultItemsFailed,
    /// The subsystem rejected its input.
    InvalidInput,
}

/// The public failure taxonomy.
#[derive(Clone, Copy, Debug, PartialEq, Eq)]
pub enum ErrorKind {
    /// The underlying request could not be started or completed.
    OperationFailed,
    /// Items could not be retrieved for an otherwise valid handle.
    FetchFailed,
    /// Caller-supplied input was malformed.
    InvalidArgument,
    /// No completion arrived within the bound.
    Timeout,
}

/// The status code under which the host runtime raises an error.
#[derive(Clone, Copy, Debug, PartialEq, Eq)]
pub enum Status {
    GenericFailure,
    InvalidArg,
}

/// The human-readable sentence that accompanies an error.
#[derive(Clone, Copy, Debug, PartialEq, Eq)]
pub enum Message {
    OperationIncomplete,
    ItemsUnavailable,
    InvalidInput,
    MismatchedLengths,
    PurchaseNotStarted,
    PurchaseItemsUnavailable,
    TimedOut,
}

/// The call in which the platform reported a failure.
#[derive(Clone, Copy, Debug, PartialEq, Eq)]
pub enum Operation {
    /// Enumerating the inventory, or fetching the items of a result.
    Query,
    /// Starting a purchase.
    Purchase,
}

/// A typed failure as the host receives it.
#[derive(Clone, Copy, Debug, PartialEq, Eq)]
pub struct HostError {
    pub kind: ErrorKind,
    pub message: Message,
}

impl ErrorKind {
    /// The public kind that stands for each platform classification.
    pub open spec fn of_platform(e: PlatformError) -> ErrorKind {
        match e {
            PlatformError::OperationFailed => ErrorKind::OperationFailed,
            PlatformError::GetResultItemsFailed => ErrorKind::FetchFailed,
            PlatformError::InvalidInput => ErrorKind::InvalidArgument,
        }
    }

    /// The host status of each kind: only malformed input is the caller's
    /// fault, everything else is a generic failure.
    pub open spec fn status_spec(self) -> Status {
        match self {
            ErrorKind::InvalidArgument => Status::InvalidArg,
            ErrorKind::OperationFailed => Status::GenericFailure,
            ErrorKind::FetchFailed => Status::GenericFailure,
            ErrorKind::Timeout => Status::GenericFailure,
        }
    }

    /// Translates a platform classification into the public taxonomy.
    pub fn from_platform(e: PlatformError) -> (kind: ErrorKind)
        ensures
            kind == ErrorKind::of_platform(e),
    {
        match e {
            PlatformError::OperationFailed => ErrorKind::OperationFailed,
            PlatformError::GetResultItemsFailed => ErrorKind::FetchFailed,
            PlatformError::InvalidInput => ErrorKind::InvalidArgument,
        }
    }

    /// The status under which the host raises an error of this kind.
    pub fn status(self) -> (status: Status)
        ensures
            status == self.status_spec(),
    {
        match self {
            ErrorKind::InvalidArgument => Status::InvalidArg,
            ErrorKind::OperationFailed => Status::GenericFailure,
            ErrorKind::FetchFailed => Status::GenericFailure,
            ErrorKind::Timeout => Status::GenericFailure,
        }
    }
}

impl Message {
    /// The sentence for a platform failure, which depends on the call that
    /// failed.
    pub open spec fn of_platform(op: Operation, e: PlatformError) -> Message {
        match (op, e) {
            (Operation::Query, PlatformError::OperationFailed) => Message::OperationIncomplete,
            (Operation::Query, PlatformError::GetResultItemsFailed) => Message::ItemsUnavailable,
            (Operation::Purchase, PlatformError::OperationFailed) => Message::PurchaseNotStarted,
            (Operation::Purchase, PlatformError::GetResultItemsFailed) =>
                Message::PurchaseItemsUnavailable,
            (_, PlatformError::InvalidInput) => Message::InvalidInput,
        }
    }

    /// The characters of each sentence.
    pub open spec fn text_spec(self) -> Seq<char> {
        match self {
            Message::OperationIncomplete => "Operation failed to complete"@,
            Message::ItemsUnavailable => "Failed to retrieve result items from inventory"@,
            Message::InvalidInput => "Invalid input provided"@,
            Message::MismatchedLengths => "Mismatched item definitions and quantities."@,
            Message::PurchaseNotStarted => "Failed to start purchase"@,
            Message::PurchaseItemsUnavailable => "Failed to retrieve result items"@,
            Message::TimedOut => "Timed out waiting for the inventory result"@,
        }
    }

    /// Chooses the sentence for a platform failure in the given call.
    pub fn from_platform(op: Operation, e: PlatformError) -> (message: Message)
        ensures
            message == Message::of_platform(op, e),
    {
        match e {
            PlatformError::InvalidInput => Message::InvalidInput,
            PlatformError::OperationFailed => match op {
                Operation::Query => Message::OperationIncomplete,
                Operation::Purchase => Message::PurchaseNotStarted,
            },
            PlatformError::GetResultItemsFailed => match op {
                Operation::Query => Message::ItemsUnavailable,
                Operation::Purchase => Message::PurchaseItemsUnavailable,
            },
        }
    }

    /// The sentence as an owned string.
    pub fn text(self) -> (text: String)
        ensures
            text@ == self.text_spec(),
    {
        match self {
            Message::OperationIncomplete => "Operation failed to complete".to_owned(),
            Message::ItemsUnavailable => "Failed to retrieve result items from inventory".to_owned(),
            Message::InvalidInput => "Invalid input provided".to_owned(),
            Message::MismatchedLengths => "Mismatched item definitions and quantities.".to_owned(),
            Message::PurchaseNotStarted => "Failed to start purchase".to_owned(),
            Message::PurchaseItemsUnavailable => "Failed to retrieve result items".to_owned(),
            Message::TimedOut => "Timed out waiting for the inventory result".to_owned(),
        }
    }
}

impl HostError {
    /// The host error that stands for a platform failure in the given call.
    pub open spec fn of_platform(op: Operation, e: PlatformError) -> HostError {
        HostError { kind: ErrorKind::of_platform(e), message: Message::of_platform(op, e) }
    }

    /// The error for two input sequences of different lengths.
    pub open spec fn mismatched_lengths() -> HostError {
        HostError { kind: ErrorKind::InvalidArgument, message: Message::MismatchedLengths }
    }

    /// The error for a request that could not be started, or that the
    /// platform reported as failed when it completed.
    pub open spec fn operation_failed() -> HostError {
        HostError { kind: ErrorKind::OperationFailed, message: Message::OperationIncomplete }
    }

    /// The error for a wait that ran out of time.
    pub open spec fn timed_out() -> HostError {
        HostError { kind: ErrorKind::Timeout, message: Message::TimedOut }
    }

    /// Translates a platform failure, reported in the given call, into the
    /// error the host receives. Every platform classification has its own
    /// arm; none falls through to a catch-all.
    pub fn from_platform(op: Operation, e: PlatformError) -> (err: HostError)
        ensures
            err == HostError::of_platform(op, e),
    {
        HostError { kind: ErrorKind::from_platform(e), message: Message::from_platform(op, e) }
    }

    /// The status under which the host raises this error.
    pub fn status(&self) -> (status: Status)
        ensures
            status == self.kind.status_spec(),
    {
        self.kind.status()
    }

    /// The sentence that accompanies this error.
    pub fn text(&self) -> (text: String)
        ensures
            text@ == self.message.text_spec(),
    {
        self.message.text()
    }
}

/// A platform failure never surfaces as a timeout, and it is raised as an
/// invalid argument exactly when the platform rejected its input.
pub proof fn lemma_platform_status(op: Operation, e: PlatformError)
    ensures
        HostError::of_platform(op, e).kind != ErrorKind::Timeout,
        HostError::of_platform(op, e).kind.status_spec() == Status::InvalidArg
            <==> e == PlatformError::InvalidInput,
{
}

} // verus!
