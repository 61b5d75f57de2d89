use smarthome::transport::{ExactTransfer, IoAction, IoEvent};

#[test]
fn one_byte_per_attempt_completes() {
    let mut t = ExactTransfer::new(4);
    for i in 0..3 {
        assert_eq!(t.handle(IoEvent::Progress(1)), IoAction::Again);
        assert_eq!(t.done(), i + 1);
    }
    assert_eq!(t.handle(IoEvent::WouldBlock), IoAction::Again);
    assert_eq!(t.remaining(), 1);
    assert_eq!(t.handle(IoEvent::Progress(1)), IoAction::Complete);
    assert!(t.is_complete());
}

#[test]
fn all_at_once_completes() {
    let mut t = ExactTransfer::new(4);
    assert_eq!(t.handle(IoEvent::Progress(4)), IoAction::Complete);
    assert_eq!(t.done(), 4);
}

#[test]
fn zero_bytes_means_closed() {
    let mut t = ExactTransfer::new(4);
    assert_eq!(t.handle(IoEvent::Progress(2)), IoAction::Again);
    assert_eq!(t.handle(IoEvent::Progress(0)), IoAction::Closed);
    assert_eq!(t.done(), 2);
    assert!(!t.is_complete());
}

#[test]
fn errors_and_overruns_fail() {
    let mut t = ExactTransfer::new(4);
    assert_eq!(t.handle(IoEvent::Failed), IoAction::Fail);
    assert_eq!(t.handle(IoEvent::Progress(5)), IoAction::Fail);
    assert_eq!(t.done(), 0);
}

#[test]
fn empty_transfer_is_complete() {
    let t = ExactTransfer::new(0);
    assert!(t.is_complete());
    assert_eq!(t.remaining(), 0);
}
