use hvtt::session::{SessionState, StateError};

#[test]
fn happy_path_runs_end_to_end() {
    let s = SessionState::Idle;
    let s = s.transition_to(SessionState::Recording).unwrap();
    let s = s.transition_to(SessionState::Transcribing).unwrap();
    let s = s.transition_to(SessionState::Ready).unwrap();
    assert_eq!(s, SessionState::Ready);
}

#[test]
fn cannot_transcribe_without_recording() {
    let err = SessionState::Idle.transition_to(SessionState::Transcribing).unwrap_err();
    assert_eq!(err, StateError::IllegalTransition { from: "idle", to: "transcribing" });
}

#[test]
fn cannot_jump_straight_to_ready() {
    assert!(SessionState::Recording.transition_to(SessionState::Ready).is_err());
}

#[test]
fn error_is_reachable_from_every_state() {
    let err = || SessionState::Error { message: "boom".into() };
    for s in [
        SessionState::Idle,
        SessionState::Recording,
        SessionState::Transcribing,
        SessionState::Ready,
    ] {
        assert!(s.transition_to(err()).is_ok(), "{} should accept error", s.name());
    }
}

#[test]
fn a_new_recording_can_start_after_ready_or_error() {
    assert!(SessionState::Ready.transition_to(SessionState::Recording).is_ok());
    assert!(SessionState::Error { message: "x".into() }
        .transition_to(SessionState::Recording)
        .is_ok());
}

#[test]
fn hotkey_starts_from_resting_states_only() {
    assert!(SessionState::Idle.accepts_start());
    assert!(SessionState::Ready.accepts_start());
    assert!(!SessionState::Recording.accepts_start());
    assert!(!SessionState::Transcribing.accepts_start());
}

#[test]
fn every_state_has_its_interface_name() {
    assert_eq!(SessionState::Idle.name(), "idle");
    assert_eq!(SessionState::Recording.name(), "recording");
    assert_eq!(SessionState::Transcribing.name(), "transcribing");
    assert_eq!(SessionState::Ready.name(), "ready");
    assert_eq!(SessionState::Error { message: "m".into() }.name(), "error");
    assert!(SessionState::Recording.is_capturing());
    assert!(!SessionState::Ready.is_capturing());
}

#[test]
fn a_second_recording_cannot_start_mid_capture() {
    let err = SessionState::Recording.transition_to(SessionState::Recording).unwrap_err();
    assert_eq!(err, StateError::IllegalTransition { from: "recording", to: "recording" });
    assert!(SessionState::Transcribing.transition_to(SessionState::Idle).is_err());
    assert!(SessionState::Ready.transition_to(SessionState::Idle).is_ok());
}

#[test]
fn a_refused_move_says_what_it_was() {
    let err = SessionState::Ready.transition_to(SessionState::Transcribing).unwrap_err();
    assert_eq!(err.message(), "cannot go from ready to transcribing");
}
