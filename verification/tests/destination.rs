use hvtt::destination::chromium::{read_deliver_reply, read_pin_reply, read_status_reply, reply_id};
use hvtt::pipeline::{DeliveryError, Liveness};
use hvtt::destination::{
    is_chromium_executable, is_known_unsupported, is_unsupported_executable, verified, PinError,
};

#[test]
fn unsupported_apps_are_phrased_as_normal_not_as_failure() {
    let e = PinError::Unsupported { app: "Slack".into() };
    assert!(e.is_expected());
    let m = e.message();
    assert!(m.contains("copied"), "should point at the clipboard, got: {m}");
    assert!(!m.to_lowercase().contains("error"), "must not read as an error: {m}");
}

#[test]
fn every_pin_error_has_a_short_plain_message() {
    for e in [
        PinError::AccessibilityPermissionMissing,
        PinError::SecureField,
        PinError::NotATextField,
        PinError::BrowserExtensionMissing,
        PinError::Unsupported { app: "VS Code".into() },
    ] {
        let m = e.message();
        assert!(!m.is_empty());
        assert!(m.len() < 90, "composer lines stay short: {m:?}");
    }
}

#[test]
fn known_electron_apps_are_recognised() {
    assert!(is_known_unsupported("com.microsoft.VSCode"));
    assert!(is_known_unsupported("com.tinyspeck.slackmacgap"));
    assert!(!is_known_unsupported("com.apple.TextEdit"));
    assert!(!is_known_unsupported("com.apple.Safari"));
}

#[test]
fn chromium_browsers_are_recognised_from_the_executable_path() {
    assert!(is_chromium_executable("/Applications/Google Chrome.app/Contents/MacOS/Google Chrome"));
    assert!(is_chromium_executable("/Applications/Brave Browser.app/Contents/MacOS/Brave Browser"));
    assert!(!is_chromium_executable("/System/Applications/TextEdit.app/Contents/MacOS/TextEdit"));
    assert!(!is_chromium_executable("/Applications/Safari.app/Contents/MacOS/Safari"));
}

#[test]
fn windows_programs_are_recognised_by_file_name() {
    assert!(is_chromium_executable(r"C:\Program Files\Google\Chrome\Application\chrome.exe"));
    assert!(is_chromium_executable(r"C:\Program Files (x86)\Microsoft\Edge\Application\msedge.exe"));
    assert!(!is_chromium_executable(r"C:\Windows\System32\notepad.exe"));
    assert_eq!(is_unsupported_executable(r"D:\Tools\Microsoft VS Code\Code.exe"), Some("VS Code".into()));
    assert_eq!(is_unsupported_executable(r"C:\Windows\System32\notepad.exe"), None);
}

#[test]
fn electron_apps_are_caught_before_the_accessibility_path_is_tried() {
    assert_eq!(is_unsupported_executable("/Applications/Slack.app/Contents/MacOS/Slack"), Some("Slack".into()));
    assert_eq!(is_unsupported_executable(".../Visual Studio Code"), Some("VS Code".into()));
    assert_eq!(is_unsupported_executable(".../TextEdit"), None);
}

#[test]
fn a_secure_field_is_never_treated_as_expected() {
    assert!(!PinError::SecureField.is_expected());
}

#[test]
fn a_write_counts_only_when_it_reads_back() {
    assert!(verified(&Some("hello world".into()), "hello ", "world"));
    assert!(!verified(&Some("hello ".into()), "hello ", "world"), "nothing changed");
    assert!(!verified(&None, "", "world"), "unreadable is unverified");
    assert!(!verified(&Some("x".into()), "", ""), "empty text is never a delivery");
}

#[test]
fn read_back_ignores_spacing_and_nonbreaking_spaces() {
    assert!(verified(&Some("hi\u{a0}there  friend".into()), "hi", "there friend"));
    assert!(!verified(&Some("a  b".into()), "a b", "b"), "only spacing changed");
    assert!(!verified(&Some("hello".into()), "", "   "), "blank text is never a delivery");
}

#[test]
fn every_pin_error_message_exactly() {
    assert_eq!(PinError::NotATextField.message(), "Click into a text field first.");
    assert_eq!(
        PinError::Unsupported { app: "Slack".into() }.message(),
        "Slack can't receive text directly — it will be copied instead."
    );
    assert_eq!(PinError::Other("as is".into()).message(), "as is");
    assert!(PinError::NotATextField.is_expected());
    assert!(!PinError::BrowserExtensionMissing.is_expected());
    assert_eq!(is_unsupported_executable(r"C:\x\SPOTIFY.EXE"), Some("Spotify".into()));
    assert!(is_chromium_executable("/opt/chromium/Chromium"));
}

#[test]
fn the_extension_lines_are_read_by_field() {
    assert_eq!(reply_id(r#"{"id":7,"ok":true}"#), Some(7));
    assert_eq!(reply_id(r#"{"ok":true}"#), Some(0));
    assert_eq!(reply_id("not json"), None);
    assert_eq!(
        read_pin_reply(r#"{"id":1,"ok":true,"target":{"host":"mail.example.com","describe":"message box"}}"#),
        Ok("mail.example.com — message box".to_string())
    );
    assert_eq!(read_pin_reply(r#"{"id":1,"ok":true}"#), Ok("a web page — text field".to_string()));
    assert_eq!(read_pin_reply(r#"{"id":1,"ok":false,"error":"secure-field"}"#), Err("secure-field".to_string()));
    assert_eq!(read_pin_reply("garbage"), Err("no-editable-field-focused".to_string()));
    assert_eq!(read_status_reply(r#"{"id":2,"alive":true}"#), Liveness::Alive);
    assert_eq!(read_status_reply(r#"{"id":2,"alive":false,"why":"page-navigated"}"#), Liveness::dead("page-navigated"));
    assert_eq!(read_status_reply(r#"{"id":2,"alive":"yes"}"#), Liveness::dead("unknown"));
    assert_eq!(read_deliver_reply(r#"{"id":3,"delivered":true}"#), Ok(()));
    assert_eq!(read_deliver_reply(r#"{"id":3,"delivered":false,"refused":"element-detached"}"#), Err(DeliveryError::DestinationLost));
    assert_eq!(read_deliver_reply(r#"{"id":3,"refused":"secure-field"}"#), Err(DeliveryError::RefusedSecureField));
    assert_eq!(read_deliver_reply("{"), Err(DeliveryError::NotVerified));
}
