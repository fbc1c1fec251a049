use crypto_service::error::MountError;
use crypto_service::lifecycle::{Lifecycle, Phase};
use crypto_service::protocol::{Operation, Reply, Request, Step};
use crypto_service::types::StorageLocation;

fn done() -> Reply {
    Reply::Done(vec![])
}

fn asks(location: StorageLocation, operation: Operation) -> Request {
    Request { location, operation, path: vec![], contents: vec![], limit: 0 }
}

/// The requests of a mount whose every request is answered with success,
/// and its result.
fn requests_of_a_mount(format: bool) -> (Vec<Request>, Result<(), MountError>, Phase) {
    let mut lifecycle = Lifecycle::new();
    let capability = lifecycle.claim().unwrap();
    let mut replies = Vec::new();
    let mut requests = Vec::new();
    loop {
        match lifecycle.mount(capability, format, &replies) {
            Step::Perform(request) => {
                assert_eq!(lifecycle.current(), Phase::Claimed);
                requests.push(request);
                replies.push(done());
            }
            Step::Finished(result) => return (requests, result, lifecycle.current()),
            Step::Fatal => panic!("no reply was a failure"),
        }
    }
}

#[test]
fn a_fresh_store_is_unclaimed() {
    assert_eq!(Lifecycle::new().current(), Phase::Unclaimed);
}

#[test]
fn the_first_claim_succeeds() {
    let mut lifecycle = Lifecycle::new();
    assert!(lifecycle.claim().is_some());
    assert_eq!(lifecycle.current(), Phase::Claimed);
}

#[test]
fn every_later_claim_gives_nothing() {
    let mut lifecycle = Lifecycle::new();
    assert!(lifecycle.claim().is_some());
    for _ in 0..10 {
        assert!(lifecycle.claim().is_none());
        assert_eq!(lifecycle.current(), Phase::Claimed);
    }
}

#[test]
fn a_mounted_store_cannot_be_claimed_again() {
    let mut lifecycle = Lifecycle::new();
    let capability = lifecycle.claim().unwrap();
    let replies = [done(), done(), done()];
    assert!(matches!(lifecycle.mount(capability, false, &replies), Step::Finished(Ok(()))));
    assert!(lifecycle.claim().is_none());
    assert_eq!(lifecycle.current(), Phase::Mounted);
}

#[test]
fn two_stores_are_claimed_apart() {
    let mut first = Lifecycle::new();
    let mut second = Lifecycle::new();
    assert!(first.claim().is_some());
    assert!(second.claim().is_some());
    assert!(first.claim().is_none());
    assert!(second.claim().is_none());
}

#[test]
fn a_mount_without_format_mounts_the_three_in_order() {
    let (requests, result, phase) = requests_of_a_mount(false);
    assert_eq!(
        requests,
        vec![
            asks(StorageLocation::Internal, Operation::Mount),
            asks(StorageLocation::External, Operation::Mount),
            asks(StorageLocation::Volatile, Operation::Mount),
        ]
    );
    assert_eq!(result, Ok(()));
    assert_eq!(phase, Phase::Mounted);
}

#[test]
fn a_mount_with_format_formats_all_three_first() {
    let (requests, result, phase) = requests_of_a_mount(true);
    assert_eq!(
        requests,
        vec![
            asks(StorageLocation::Internal, Operation::Format),
            asks(StorageLocation::External, Operation::Format),
            asks(StorageLocation::Volatile, Operation::Format),
            asks(StorageLocation::Internal, Operation::Mount),
            asks(StorageLocation::External, Operation::Mount),
            asks(StorageLocation::Volatile, Operation::Mount),
        ]
    );
    assert_eq!(result, Ok(()));
    assert_eq!(phase, Phase::Mounted);
}

#[test]
fn a_medium_that_cannot_be_formatted_is_fatal() {
    for failed in 0..3 {
        let mut lifecycle = Lifecycle::new();
        let capability = lifecycle.claim().unwrap();
        let mut replies = vec![done(); failed];
        replies.push(Reply::Failed);
        assert!(matches!(lifecycle.mount(capability, true, &replies), Step::Fatal));
        assert_eq!(lifecycle.current(), Phase::Claimed);
        replies.push(done());
        assert!(matches!(lifecycle.mount(capability, true, &replies), Step::Fatal));
    }
}

#[test]
fn a_medium_that_cannot_be_mounted_ends_the_mount_with_its_location() {
    let locations =
        [StorageLocation::Internal, StorageLocation::External, StorageLocation::Volatile];
    for format in [false, true] {
        for (failed, location) in locations.iter().enumerate() {
            let mut lifecycle = Lifecycle::new();
            let capability = lifecycle.claim().unwrap();
            let formats = if format { 3 } else { 0 };
            let mut replies = vec![done(); formats + failed];
            replies.push(Reply::Failed);
            let step = lifecycle.mount(capability, format, &replies);
            let expected = Err(MountError::Unmountable(*location));
            assert!(matches!(step, Step::Finished(result) if result == expected));
            assert_eq!(lifecycle.current(), Phase::Claimed);
        }
    }
}

#[test]
fn an_existing_entry_is_no_success_of_a_format_or_a_mount() {
    let mut lifecycle = Lifecycle::new();
    let capability = lifecycle.claim().unwrap();
    let replies = [Reply::EntryAlreadyExisted];
    assert!(matches!(lifecycle.mount(capability, true, &replies), Step::Fatal));
    let step = lifecycle.mount(capability, false, &replies);
    let expected = Err(MountError::Unmountable(StorageLocation::Internal));
    assert!(matches!(step, Step::Finished(result) if result == expected));
}

#[test]
fn a_second_mount_is_rejected() {
    let mut lifecycle = Lifecycle::new();
    let capability = lifecycle.claim().unwrap();
    let replies = [done(), done(), done()];
    assert!(matches!(lifecycle.mount(capability, false, &replies), Step::Finished(Ok(()))));
    for format in [false, true] {
        for answered in 0..=6 {
            let replies = vec![done(); answered];
            let step = lifecycle.mount(capability, format, &replies);
            let expected = Err(MountError::AlreadyMounted);
            assert!(matches!(step, Step::Finished(result) if result == expected));
            assert_eq!(lifecycle.current(), Phase::Mounted);
        }
    }
}

#[test]
fn an_unclaimed_store_is_not_mounted() {
    let mut other = Lifecycle::new();
    let capability = other.claim().unwrap();
    let mut lifecycle = Lifecycle::new();
    let step = lifecycle.mount(capability, true, &[]);
    let expected = Err(MountError::NotClaimed);
    assert!(matches!(step, Step::Finished(result) if result == expected));
    assert_eq!(lifecycle.current(), Phase::Unclaimed);
}

#[test]
fn a_mount_can_be_tried_again_after_a_medium_could_not_be_mounted() {
    let mut lifecycle = Lifecycle::new();
    let capability = lifecycle.claim().unwrap();
    let step = lifecycle.mount(capability, false, &[done(), Reply::Failed]);
    let expected = Err(MountError::Unmountable(StorageLocation::External));
    assert!(matches!(step, Step::Finished(result) if result == expected));
    let replies = [done(), done(), done()];
    assert!(matches!(lifecycle.mount(capability, false, &replies), Step::Finished(Ok(()))));
    assert_eq!(lifecycle.current(), Phase::Mounted);
}

#[test]
fn a_copy_of_the_capability_stands_for_the_same_claim() {
    let mut lifecycle = Lifecycle::new();
    let capability = lifecycle.claim().unwrap();
    let copy = capability;
    let step = lifecycle.mount(copy, false, &[]);
    assert!(matches!(step, Step::Perform(request)
        if request == asks(StorageLocation::Internal, Operation::Mount)));
    let step = lifecycle.mount(capability, false, &[done()]);
    assert!(matches!(step, Step::Perform(request)
        if request == asks(StorageLocation::External, Operation::Mount)));
}
