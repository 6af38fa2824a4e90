use hvtt::win_shortcut::{accelerator, key_name, modifier_of, Capture, Heard, Modifier, TIMEOUT_MS};

#[test]
fn keys_are_named_as_the_page_named_them() {
    assert_eq!(key_name(0x20).as_deref(), Some("Space"));
    assert_eq!(key_name(0x56).as_deref(), Some("V"));
    assert_eq!(key_name(0x35).as_deref(), Some("5"));
    assert_eq!(key_name(0x74).as_deref(), Some("F5"));
    assert_eq!(key_name(0x87).as_deref(), Some("F24"));
    assert_eq!(key_name(0x12), None, "Alt alone is not a shortcut");
}

#[test]
fn alt_space_can_be_chosen() {
    assert_eq!(accelerator(false, true, false, false, "Space"), "Alt+Space");
    assert_eq!(accelerator(true, true, true, false, "V"), "Alt+Ctrl+Shift+V");
}

#[test]
fn numpad_and_punctuation_keys_have_names() {
    assert_eq!(key_name(0x60).as_deref(), Some("Numpad0"));
    assert_eq!(key_name(0x69).as_deref(), Some("Numpad9"));
    assert_eq!(key_name(0x70).as_deref(), Some("F1"));
    assert_eq!(key_name(0xC0).as_deref(), Some("Backquote"));
    assert_eq!(key_name(0xBF).as_deref(), Some("Slash"));
    assert_eq!(key_name(0x1B), None);
    assert_eq!(accelerator(true, false, true, true, "Numpad1"), "Ctrl+Super+Shift+Numpad1");
    assert_eq!(modifier_of(0xA3), Some(Modifier::Ctrl));
    assert_eq!(modifier_of(0x5C), Some(Modifier::Win));
    assert_eq!(modifier_of(0x41), None);
}

#[test]
fn a_prompt_answers_once_with_the_first_real_key() {
    let mut c = Capture::start(1000);
    assert_eq!(c.on_key(0xA2, true, false), None, "Ctrl down");
    assert_eq!(c.on_key(0x12, true, false), None, "Alt down");
    assert_eq!(c.on_key(0x56, true, false), Some(Heard::Keys("Alt+Ctrl+V".into())));
    assert_eq!(c.on_key(0x57, true, false), None, "already answered");
    assert_eq!(c.tick(1000 + TIMEOUT_MS + 1), None, "no timeout after an answer");
    c.extend(2000);
    assert_eq!(c.on_key(0x56, true, false), None, "still held: an auto-repeat");
    assert_eq!(c.on_key(0x56, false, true), None, "released");
    assert_eq!(c.on_key(0x56, true, false), Some(Heard::Keys("Alt+Ctrl+V".into())));
}

#[test]
fn escape_alone_cancels_and_silence_times_out() {
    let mut c = Capture::start(0);
    assert_eq!(c.on_key(0x1B, true, false), Some(Heard::Cancel));
    let mut c = Capture::start(0);
    assert_eq!(c.on_key(0x10, true, false), None, "Shift down");
    assert_eq!(c.on_key(0x1B, true, false), None, "Shift+Escape names nothing");
    assert_eq!(c.tick(TIMEOUT_MS), None, "not yet");
    assert_eq!(c.tick(TIMEOUT_MS + 1), Some(Heard::Cancel));
    assert_eq!(c.tick(TIMEOUT_MS + 2), None, "once");
}
