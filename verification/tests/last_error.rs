use optrs::last_error::{clear, last_message, LastError};

#[test]
fn message_is_nul_terminated() {
    let mut e = LastError::new();
    assert!(last_message(&e).is_none());
    optrs::last_error::set(&mut e, b"domain error: bad spot");
    assert_eq!(last_message(&e).unwrap(), b"domain error: bad spot\0");
}

#[test]
fn interior_nul_becomes_space() {
    let mut e = LastError::new();
    optrs::last_error::set(&mut e, b"a\0b\0");
    assert_eq!(last_message(&e).unwrap(), b"a b \0");
}

#[test]
fn clear_forgets_the_message() {
    let mut e = LastError::new();
    optrs::last_error::set(&mut e, b"x");
    clear(&mut e);
    assert!(last_message(&e).is_none());
}

#[test]
fn later_message_replaces_earlier() {
    let mut e = LastError::new();
    optrs::last_error::set(&mut e, b"first");
    optrs::last_error::set(&mut e, b"second");
    assert_eq!(last_message(&e).unwrap(), b"second\0");
    optrs::last_error::set(&mut e, b"");
    assert_eq!(last_message(&e).unwrap(), b"\0");
}
