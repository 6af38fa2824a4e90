use hvtt::win_hook::{hook_thread_settles, starter_settles, Handshake};

#[test]
fn a_thread_that_reported_in_time_is_taken_and_keeps_its_hooks() {
    let mut s = Handshake::Waiting;
    assert!(hook_thread_settles(&mut s, true, 77));
    assert_eq!(s, Handshake::Running(77));
    assert_eq!(starter_settles(&mut s), Some(77));
    assert_eq!(s, Handshake::Running(77));
}

#[test]
fn a_late_thread_removes_its_hooks() {
    let mut s = Handshake::Waiting;
    assert_eq!(starter_settles(&mut s), None);
    assert_eq!(s, Handshake::Abandoned);
    assert!(!hook_thread_settles(&mut s, true, 77));
    assert_eq!(s, Handshake::Abandoned);
}

#[test]
fn a_hook_that_failed_is_reported_as_failure() {
    let mut s = Handshake::Waiting;
    assert!(!hook_thread_settles(&mut s, false, 77));
    assert_eq!(s, Handshake::Failed);
    assert_eq!(starter_settles(&mut s), None);
    assert_eq!(s, Handshake::Abandoned);
}
