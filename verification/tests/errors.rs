use steam_inventory::error::{ErrorKind, HostError, Message, Operation, PlatformError, Status};

#[test]
fn platform_errors_map_to_the_public_taxonomy() {
    assert_eq!(ErrorKind::from_platform(PlatformError::OperationFailed), ErrorKind::OperationFailed);
    assert_eq!(ErrorKind::from_platform(PlatformError::GetResultItemsFailed), ErrorKind::FetchFailed);
    assert_eq!(ErrorKind::from_platform(PlatformError::InvalidInput), ErrorKind::InvalidArgument);
}

#[test]
fn only_invalid_argument_is_raised_as_invalid_arg() {
    assert_eq!(ErrorKind::OperationFailed.status(), Status::GenericFailure);
    assert_eq!(ErrorKind::FetchFailed.status(), Status::GenericFailure);
    assert_eq!(ErrorKind::Timeout.status(), Status::GenericFailure);
    assert_eq!(ErrorKind::InvalidArgument.status(), Status::InvalidArg);
}

#[test]
fn query_failures_carry_their_sentences() {
    let e = HostError::from_platform(Operation::Query, PlatformError::OperationFailed);
    assert_eq!(e.kind, ErrorKind::OperationFailed);
    assert_eq!(e.status(), Status::GenericFailure);
    assert_eq!(e.text(), "Operation failed to complete");

    let e = HostError::from_platform(Operation::Query, PlatformError::GetResultItemsFailed);
    assert_eq!(e.kind, ErrorKind::FetchFailed);
    assert_eq!(e.status(), Status::GenericFailure);
    assert_eq!(e.text(), "Failed to retrieve result items from inventory");

    let e = HostError::from_platform(Operation::Query, PlatformError::InvalidInput);
    assert_eq!(e.kind, ErrorKind::InvalidArgument);
    assert_eq!(e.status(), Status::InvalidArg);
    assert_eq!(e.text(), "Invalid input provided");
}

#[test]
fn purchase_failures_carry_their_sentences() {
    let e = HostError::from_platform(Operation::Purchase, PlatformError::OperationFailed);
    assert_eq!(e.kind, ErrorKind::OperationFailed);
    assert_eq!(e.status(), Status::GenericFailure);
    assert_eq!(e.text(), "Failed to start purchase");

    let e = HostError::from_platform(Operation::Purchase, PlatformError::GetResultItemsFailed);
    assert_eq!(e.kind, ErrorKind::FetchFailed);
    assert_eq!(e.status(), Status::GenericFailure);
    assert_eq!(e.text(), "Failed to retrieve result items");

    let e = HostError::from_platform(Operation::Purchase, PlatformError::InvalidInput);
    assert_eq!(e.kind, ErrorKind::InvalidArgument);
    assert_eq!(e.status(), Status::InvalidArg);
    assert_eq!(e.text(), "Invalid input provided");
}

#[test]
fn every_message_has_its_own_text() {
    let all = [
        Message::OperationIncomplete,
        Message::ItemsUnavailable,
        Message::InvalidInput,
        Message::MismatchedLengths,
        Message::PurchaseNotStarted,
        Message::PurchaseItemsUnavailable,
        Message::TimedOut,
    ];
    for (i, a) in all.iter().enumerate() {
        assert!(!a.text().is_empty());
        for b in all.iter().skip(i + 1) {
            assert_ne!(a.text(), b.text());
        }
    }
    assert_eq!(Message::MismatchedLengths.text(), "Mismatched item definitions and quantities.");
    assert_eq!(Message::TimedOut.text(), "Timed out waiting for the inventory result");
}

#[test]
fn message_choice_matches_the_operation() {
    assert_eq!(
        Message::from_platform(Operation::Query, PlatformError::OperationFailed),
        Message::OperationIncomplete
    );
    assert_eq!(
        Message::from_platform(Operation::Purchase, PlatformError::OperationFailed),
        Message::PurchaseNotStarted
    );
    assert_eq!(
        Message::from_platform(Operation::Query, PlatformError::GetResultItemsFailed),
        Message::ItemsUnavailable
    );
    assert_eq!(
        Message::from_platform(Operation::Purchase, PlatformError::GetResultItemsFailed),
        Message::PurchaseItemsUnavailable
    );
}
