use xplane::registry::{ContextBlock, RegistrationError};

#[test]
fn accepted_registration_unregisters_once_before_release() {
    let mut b = ContextBlock::new(1u8, 2u16);
    assert_eq!(b.host_id(), None);
    assert_eq!(b.bind(Some(42)), Ok(()));
    assert_eq!(b.host_id(), Some(42));
    assert!(b.is_active());
    b.record_invocation(false);
    b.record_invocation(false);
    {
        let (h, s) = b.parts_mut();
        *h += 1;
        *s += 1;
    }
    assert_eq!(*b.state_ref(), 3);
    assert_eq!(b.detach(), Some(42));
    let _ = b.release();
}

#[test]
fn refused_registration_is_rejected() {
    let mut b = ContextBlock::new((), ());
    assert_eq!(b.bind(None), Err(RegistrationError::HostRejected));
    assert!(!b.is_active());
    let _ = b.release();
}

#[test]
fn last_call_skips_the_unregister() {
    let mut b = ContextBlock::new((), ());
    b.bind(Some(5)).unwrap();
    b.record_invocation(false);
    b.record_invocation(true);
    assert!(!b.is_active());
    assert_eq!(b.detach(), None);
    let _ = b.release();
}

#[test]
fn registration_without_invocations() {
    let mut b = ContextBlock::new((), ());
    b.bind(Some(9)).unwrap();
    assert_eq!(b.detach(), Some(9));
    let _ = b.release();
}
