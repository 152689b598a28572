use counter_mac::state::{Private, ReceiveError};
use hmac::digest::{InvalidLength, MacError};

#[test]
fn new_starts_at_zero() {
    let p = Private::new(b"secret");
    assert_eq!(p.counter(), 0);
}

#[test]
fn with_counter_starts_where_told() {
    assert_eq!(Private::with_counter(b"secret", 0).counter(), 0);
    assert_eq!(Private::with_counter(b"secret", 12345).counter(), 12345);
    assert_eq!(Private::with_counter(b"", u64::MAX).counter(), u64::MAX);
}

#[test]
fn bump_advances_by_one() {
    let mut p = Private::new(b"secret");
    p.bump();
    assert_eq!(p.counter(), 1);
    p.bump();
    assert_eq!(p.counter(), 2);
    let mut q = Private::with_counter(b"secret", 0xffff_ffff);
    q.bump();
    assert_eq!(q.counter(), 0x1_0000_0000);
}

#[test]
fn bump_wraps_to_zero() {
    let mut p = Private::with_counter(b"secret", u64::MAX - 1);
    p.bump();
    assert_eq!(p.counter(), u64::MAX);
    p.bump();
    assert_eq!(p.counter(), 0);
    p.bump();
    assert_eq!(p.counter(), 1);
}

#[test]
fn settle_on_match_advances() {
    let mut p = Private::with_counter(b"secret", 9);
    assert_eq!(p.settle(Ok(())), Ok(()));
    assert_eq!(p.counter(), 10);
}

#[test]
fn settle_on_match_wraps() {
    let mut p = Private::with_counter(b"secret", u64::MAX);
    assert_eq!(p.settle(Ok(())), Ok(()));
    assert_eq!(p.counter(), 0);
}

#[test]
fn settle_on_mismatch_keeps_the_counter() {
    let mut p = Private::with_counter(b"secret", 9);
    assert_eq!(p.settle(Err(MacError)), Err(ReceiveError::BadSignature));
    assert_eq!(p.counter(), 9);
    assert_eq!(p.settle(Err(MacError)), Err(ReceiveError::BadSignature));
    assert_eq!(p.counter(), 9);
    assert_eq!(p.settle(Ok(())), Ok(()));
    assert_eq!(p.counter(), 10);
}

#[test]
fn refused_key_is_a_key_error() {
    assert_eq!(ReceiveError::from(InvalidLength), ReceiveError::BadKey);
}

#[test]
fn tag_mismatch_is_an_authentication_failure() {
    assert_eq!(ReceiveError::from(MacError), ReceiveError::BadSignature);
}

#[test]
fn error_kinds_are_distinct() {
    assert_ne!(ReceiveError::BadKey, ReceiveError::BadSignature);
    assert_eq!(format!("{:?}", ReceiveError::BadKey), "BadKey");
    assert_eq!(format!("{:?}", ReceiveError::BadSignature), "BadSignature");
}
