use hvtt::destination::windows_paste::{
    blocks_paste_when_held, is_extended_key, KeyWatch,
    counts_as_typing, input_moved, is_modifier, is_mouse_button, is_paste_candidate, is_shell,
    paste_keys, trigger_key_of, wrapping_delta, FocusStamp, PasteDestination, VK_MASK,
};
use hvtt::pipeline::{DeliveryError, Liveness};

#[test]
fn any_key_besides_the_stop_press_refuses_the_paste() {
    for vk in [0x25, 0x26, 0x27, 0x28, 0x41, 0x31, 0x08, 0x0D, 0x2E, 0x20] {
        assert!(counts_as_typing(vk, false, false), "{vk:#x} can move the caret");
    }
    assert_eq!(input_moved(0, 1), None, "the stop press alone");
    assert_eq!(input_moved(0, 2), Some("typed"), "an arrow or a letter, then the stop press");
    assert_eq!(input_moved(0, 3), Some("typed"));
    assert_eq!(input_moved(1, 1), Some("clicked"));
    assert_eq!(input_moved(0, 0), Some("stop-not-seen"), "no count at all is not proof");
}

#[test]
fn the_trigger_key_is_found_from_the_shortcut() {
    assert_eq!(trigger_key_of("Alt+Space"), 0x20);
    assert_eq!(trigger_key_of("Ctrl+Alt+Shift+V"), 0x56);
    assert_eq!(trigger_key_of("Ctrl+KeyD"), 0x44);
    assert_eq!(trigger_key_of("Super+F5"), 0x74);
}

#[test]
fn mouse_buttons_are_not_keys_held_at_the_start() {
    for vk in [0x01, 0x02, 0x04, 0x05, 0x06] {
        assert!(is_mouse_button(vk));
    }
    assert!(!is_mouse_button(0x25), "Left Arrow is a key");
}

#[test]
fn repeats_and_our_own_keystrokes_are_not_typing() {
    assert!(!counts_as_typing(0x20, false, true), "the shortcut's auto-repeat");
    assert!(!counts_as_typing(0x56, true, false), "our own Ctrl+V");
    assert!(!counts_as_typing(0xE8, true, false), "our menu mask");
}

#[test]
fn modifiers_are_not_counted_as_typing() {
    for vk in [0x10, 0x11, 0x12, 0xA0, 0xA1, 0xA2, 0xA3, 0xA4, 0xA5, 0x5B, 0x5C] {
        assert!(is_modifier(vk), "{vk:#x} is a modifier");
    }
    for vk in [0x20, 0x41, 0x56, 0x0D] {
        assert!(!is_modifier(vk), "{vk:#x} is a real key press");
    }
}

#[test]
fn a_paste_with_nothing_held_is_plain_ctrl_v() {
    assert_eq!(paste_keys(false, &[]), vec![(0xA2, false), (0x56, false), (0x56, true), (0xA2, true)]);
}

#[test]
fn a_paste_under_held_ctrl_alt_is_still_ctrl_v_and_gives_the_keys_back() {
    let keys = paste_keys(true, &[0xA4]);
    assert_eq!(
        keys,
        vec![
            (VK_MASK, false),
            (VK_MASK, true),
            (0xA4, true),
            (0x56, false),
            (0x56, true),
            (0xA4, false),
            (VK_MASK, false),
            (VK_MASK, true),
        ]
    );
}

#[test]
fn shift_alone_needs_no_mask() {
    let keys = paste_keys(true, &[0xA0]);
    assert!(!keys.iter().any(|(k, _)| *k == VK_MASK));
    assert_eq!(keys.first(), Some(&(0xA0, true)));
    assert_eq!(keys.last(), Some(&(0xA0, false)));
}

#[test]
fn the_desktop_and_taskbar_are_never_a_destination() {
    for class in ["Progman", "WorkerW", "Shell_TrayWnd", "Shell_SecondaryTrayWnd"] {
        assert!(is_shell(class));
    }
    assert!(!is_shell("Notepad"));
    assert!(!is_shell("Chrome_WidgetWin_1"));
}

#[test]
fn a_stamp_holds_only_while_nothing_moves() {
    let stamp = FocusStamp::new((10, 11, 42), "Notepad".into(), 5, 7, false);
    assert_eq!(stamp.pid(), 42);
    assert!(!stamp.is_chromium_window());
    let front = Some((10, 11, 42));
    assert_eq!(stamp.moved(front, 5, 8), None, "the stop press alone");
    assert_eq!(stamp.moved(front, 5, 9), Some("typed"));
    assert_eq!(stamp.moved(front, 6, 8), Some("clicked"));
    assert_eq!(stamp.moved(front, 5, 7), Some("stop-not-seen"));
    assert_eq!(stamp.moved(Some((12, 11, 42)), 5, 8), Some("window-changed"));
    assert_eq!(stamp.moved(Some((10, 13, 42)), 5, 8), Some("focus-changed"));
    assert_eq!(stamp.moved(None, 5, 8), Some("no-front-window"));
    assert_eq!(stamp.moved_since_keypress(front, 5, 7), None);
    assert_eq!(stamp.moved_since_keypress(front, 5, 8), Some("typed"));
    assert_eq!(stamp.moved_since_keypress(front, 6, 7), Some("clicked"));
    let held = FocusStamp::new((10, 11, 42), "Chrome_WidgetWin_1".into(), 5, 7, true);
    assert!(held.is_chromium_window());
    assert_eq!(held.moved(front, 5, 8), Some("key-held-at-start"));
}

#[test]
fn counters_that_wrap_still_count() {
    assert_eq!(wrapping_delta(2, u32::MAX), 3);
    assert_eq!(wrapping_delta(9, 4), 5);
    let stamp = FocusStamp::new((1, 2, 3), "Edit".into(), u32::MAX, u32::MAX, false);
    assert_eq!(stamp.moved(Some((1, 2, 3)), u32::MAX, 0), None);
}

#[test]
fn a_paste_destination_is_gated_on_the_stamp() {
    let stamp = FocusStamp::new((10, 11, 42), "Notepad".into(), 0, 0, false);
    let d = PasteDestination::new(stamp, "Notepad".into(), true);
    assert_eq!(d.label(), "Notepad");
    assert_eq!(d.liveness(Some((10, 11, 42)), 0, 1), Liveness::Alive);
    assert_eq!(d.liveness(Some((10, 11, 42)), 1, 1), Liveness::dead("clicked"));
    assert_eq!(d.deliver_check(Some((10, 11, 42)), 0, 1), Ok(true));
    assert_eq!(d.deliver_check(None, 0, 1), Err(DeliveryError::DestinationLost));
    assert!(is_paste_candidate(42, 7, "Notepad"));
    assert!(!is_paste_candidate(7, 7, "Notepad"));
    assert!(!is_paste_candidate(42, 7, "Progman"));
}

#[test]
fn shortcuts_without_a_known_key_have_no_trigger() {
    assert_eq!(trigger_key_of("Ctrl+Digit5"), 0x35);
    assert_eq!(trigger_key_of("Ctrl+space"), 0x20);
    assert_eq!(trigger_key_of("Ctrl+Nothing"), 0);
    assert_eq!(trigger_key_of(""), 0);
}

#[test]
fn keys_held_at_the_start_block_the_paste_unless_harmless() {
    assert!(blocks_paste_when_held(0x41, 0x20));
    assert!(!blocks_paste_when_held(0x20, 0x20), "the shortcut's own key");
    assert!(!blocks_paste_when_held(0xA0, 0x20), "a modifier");
    assert!(!blocks_paste_when_held(0x01, 0x20), "a mouse button");
    assert!(is_extended_key(0xA3));
    assert!(is_extended_key(0x5B));
    assert!(!is_extended_key(0xA2));
}

#[test]
fn the_hooks_count_real_presses_and_clicks_only() {
    let mut w = KeyWatch::new();
    w.mark_held(0x20, true);
    w.on_key(0x20, true, false, false);
    assert_eq!(w.keys(), 0, "the shortcut's key still down: a repeat");
    w.on_key(0x20, false, true, false);
    w.on_key(0x20, true, false, false);
    assert_eq!(w.keys(), 1, "pressed again");
    w.on_key(0x41, true, false, true);
    assert_eq!(w.keys(), 1, "our own keystroke");
    w.on_key(0xA2, true, false, false);
    assert_eq!(w.keys(), 1, "a modifier");
    w.on_key(0x141, true, false, false);
    assert_eq!(w.keys(), 2, "codes are taken modulo 256");
    w.on_click(true);
    assert_eq!(w.clicks(), 0);
    w.on_click(false);
    assert_eq!(w.clicks(), 1);
}
