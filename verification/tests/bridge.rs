use hvtt::bridge::{
    accepts_frame_length, frame_for_browser, length_of_header, line_for_program, BridgeError,
    Request, MAX_MESSAGE,
};
use hvtt::destination::chromium::{bridge_failure, deliver_reply, pin_reply, status_reply};
use hvtt::pipeline::{DeliveryError, Liveness};

#[test]
fn frames_carry_their_length_little_endian() {
    let f = frame_for_browser(b"{\"a\":1}");
    assert_eq!(&f[..4], &[7, 0, 0, 0]);
    assert_eq!(&f[4..], b"{\"a\":1}");
    assert_eq!(length_of_header([7, 0, 0, 0]), 7);
    assert_eq!(length_of_header([0, 1, 0, 1]), 16777472);
    assert_eq!(line_for_program(b"{}"), b"{}\n".to_vec());
}

#[test]
fn empty_and_oversized_messages_end_the_session() {
    assert!(!accepts_frame_length(0));
    assert!(accepts_frame_length(1));
    assert!(accepts_frame_length(MAX_MESSAGE));
    assert!(!accepts_frame_length(MAX_MESSAGE + 1));
    let r = Request { id: 1, cmd: "pin".into(), text: None };
    assert_eq!(r.clone(), r);
}

#[test]
fn the_extensions_answers_are_read_strictly() {
    assert_eq!(pin_reply(Some(true), None, Some("chatgpt.com".into()), Some("prompt".into())), Ok("chatgpt.com — prompt".into()));
    assert_eq!(pin_reply(Some(true), None, None, None), Ok("a web page — text field".into()));
    assert_eq!(pin_reply(Some(false), Some("no-field".into()), None, None), Err("no-field".into()));
    assert_eq!(pin_reply(None, None, None, None), Err("no-editable-field-focused".into()));
    assert_eq!(bridge_failure(BridgeError::NotConnected), "browser-extension-not-connected");
    assert_eq!(bridge_failure(BridgeError::NoResponse), "browser-did-not-answer");
    assert_eq!(bridge_failure(BridgeError::Transport("broken pipe".into())), "broken pipe");
    assert_eq!(status_reply(Some(true), None), Liveness::Alive);
    assert_eq!(status_reply(Some(false), Some("page-navigated".into())), Liveness::dead("page-navigated"));
    assert_eq!(status_reply(None, None), Liveness::dead("unknown"));
    assert_eq!(deliver_reply(Some(true), None), Ok(()));
    assert_eq!(deliver_reply(Some(false), Some("element-detached".into())), Err(DeliveryError::DestinationLost));
    assert_eq!(deliver_reply(None, Some("secure-field".into())), Err(DeliveryError::RefusedSecureField));
    assert_eq!(deliver_reply(Some(false), Some("odd".into())), Err(DeliveryError::NotVerified));
    assert_eq!(deliver_reply(None, None), Err(DeliveryError::NotVerified));
}
