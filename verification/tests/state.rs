use bss::state::{StateError, TagState, TransferState};

#[test]
fn a_new_record_is_all_pending() {
    let state = TransferState::new(3);
    assert_eq!(state.len(), 3);
    for i in 0..3 {
        assert_eq!(state.get(i), Some(TagState::Pending));
    }
    assert_eq!(state.get(3), None);
    assert!(!state.all_completed());
}

#[test]
fn an_empty_record_is_complete() {
    let state = TransferState::new(0);
    assert_eq!(state.len(), 0);
    assert!(state.all_completed());
}

#[test]
fn a_pending_secret_is_claimed_once() {
    let mut state = TransferState::new(2);
    assert!(state.try_claim(0));
    assert_eq!(state.get(0), Some(TagState::InFlight));
    assert!(!state.try_claim(0));
    assert_eq!(state.get(0), Some(TagState::InFlight));
    assert_eq!(state.get(1), Some(TagState::Pending));
}

#[test]
fn claiming_out_of_range_does_nothing() {
    let mut state = TransferState::new(2);
    assert!(!state.try_claim(2));
    assert!(!state.try_claim(usize::MAX));
    assert_eq!(state.get(0), Some(TagState::Pending));
    assert_eq!(state.get(1), Some(TagState::Pending));
}

#[test]
fn completing_needs_an_upload_in_flight() {
    let mut state = TransferState::new(2);
    assert_eq!(state.complete(0), Err(StateError::NotInFlight { index: 0 }));
    assert_eq!(state.get(0), Some(TagState::Pending));
    assert!(state.try_claim(0));
    assert_eq!(state.complete(0), Ok(()));
    assert_eq!(state.get(0), Some(TagState::Completed));
    assert_eq!(state.complete(0), Err(StateError::AlreadyCompleted { index: 0 }));
    assert_eq!(state.get(0), Some(TagState::Completed));
    assert_eq!(state.complete(2), Err(StateError::UnknownSecret { index: 2 }));
}

#[test]
fn a_completed_secret_is_never_claimed_again() {
    let mut state = TransferState::new(1);
    assert!(state.try_claim(0));
    assert_eq!(state.complete(0), Ok(()));
    assert!(!state.try_claim(0));
    assert_eq!(state.release(0), Err(StateError::AlreadyCompleted { index: 0 }));
    assert_eq!(state.get(0), Some(TagState::Completed));
}

#[test]
fn releasing_makes_the_secret_pending_again() {
    let mut state = TransferState::new(2);
    assert_eq!(state.release(1), Err(StateError::NotInFlight { index: 1 }));
    assert!(state.try_claim(1));
    assert_eq!(state.release(1), Ok(()));
    assert_eq!(state.get(1), Some(TagState::Pending));
    assert!(state.try_claim(1));
    assert_eq!(state.release(5), Err(StateError::UnknownSecret { index: 5 }));
}

#[test]
fn all_completed_needs_every_secret() {
    let mut state = TransferState::new(3);
    for i in 0..3 {
        assert!(!state.all_completed());
        assert!(state.try_claim(i));
        assert!(!state.all_completed());
        assert_eq!(state.complete(i), Ok(()));
    }
    assert!(state.all_completed());
}

#[test]
fn secrets_do_not_affect_each_other() {
    let mut state = TransferState::new(3);
    assert!(state.try_claim(1));
    assert!(state.try_claim(0));
    assert_eq!(state.complete(1), Ok(()));
    assert_eq!(state.release(0), Ok(()));
    assert_eq!(state.get(0), Some(TagState::Pending));
    assert_eq!(state.get(1), Some(TagState::Completed));
    assert_eq!(state.get(2), Some(TagState::Pending));
}
