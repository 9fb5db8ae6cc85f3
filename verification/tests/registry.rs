use join_gate::errors::GateError;
use join_gate::registry::{JoinRequest, JoinRequestKey, Registry};

fn key(group: i64, subject: u64) -> JoinRequestKey {
    JoinRequestKey { group, subject }
}

#[test]
fn insert_then_peek_returns_the_record() {
    let mut reg = Registry::new();
    let k = key(-100200300, 42);
    let rec = JoinRequest::new(42, Some(777), 123456);
    assert_eq!(reg.insert(k, rec), Ok(()));
    let seen = reg.peek(k).expect("the record must be pending");
    assert_eq!(seen.subject, 42);
    assert_eq!(seen.prompt_ref, Some(777));
    assert_eq!(seen.created_at, 123456);
    assert!(!seen.is_verified);
}

#[test]
fn insert_on_present_key_fails_and_keeps_the_record() {
    let mut reg = Registry::new();
    let k = key(-5, 9);
    let first = JoinRequest::new(9, Some(1), 10);
    let second = JoinRequest::new(9, Some(2), 20);
    assert_eq!(reg.insert(k, first), Ok(()));
    assert_eq!(reg.insert(k, second), Err(GateError::DuplicateKey));
    let kept = reg.peek(k).expect("the first record must still be pending");
    assert_eq!(kept.prompt_ref, Some(1));
    assert_eq!(kept.created_at, 10);
}

#[test]
fn take_returns_the_record_exactly_once() {
    let mut reg = Registry::new();
    let k = key(7, 8);
    let rec = JoinRequest::new(8, None, 0);
    assert_eq!(reg.insert(k, rec), Ok(()));
    let mut winners: usize = 0;
    for _ in 0..5 {
        if reg.take(k).is_some() {
            winners += 1;
        }
    }
    assert_eq!(winners, 1);
}

#[test]
fn take_on_absent_key_returns_nothing() {
    let mut reg = Registry::new();
    assert!(reg.take(key(1, 2)).is_none());
}

#[test]
fn keys_differing_in_group_or_subject_are_independent() {
    let mut reg = Registry::new();
    let a = key(1, 2);
    let b = key(1, 3);
    let c = key(2, 2);
    assert_eq!(reg.insert(a, JoinRequest::new(2, Some(10), 0)), Ok(()));
    assert_eq!(reg.insert(b, JoinRequest::new(3, Some(11), 0)), Ok(()));
    assert_eq!(reg.insert(c, JoinRequest::new(2, Some(12), 0)), Ok(()));
    assert_eq!(reg.take(b).unwrap().prompt_ref, Some(11));
    assert_eq!(reg.peek(a).unwrap().prompt_ref, Some(10));
    assert_eq!(reg.peek(c).unwrap().prompt_ref, Some(12));
}

#[test]
fn mark_verified_then_take_flags_and_destroys() {
    let mut reg = Registry::new();
    let k = key(4, 5);
    assert_eq!(reg.insert(k, JoinRequest::new(5, Some(6), 7)), Ok(()));
    let taken = reg.mark_verified_then_take(k).expect("the record must be won");
    assert!(taken.is_verified);
    assert_eq!(taken.subject, 5);
    assert_eq!(taken.prompt_ref, Some(6));
    assert!(reg.mark_verified_then_take(k).is_none());
    assert!(reg.peek(k).is_none());
}
