use hvtt::menu::{apply_menu_action, build_menu, menu_action, model_label, EntryKind, MenuAction, MenuState};
use hvtt::platform::Platform;
use hvtt::settings::{ClipboardChoice, Settings};

fn texts(st: MenuState, s: &Settings) -> Vec<(u8, String, String, bool)> {
    build_menu(s, st, "ggml-base.en.bin", "0.1.1", Platform::MacOs)
        .into_iter()
        .map(|e| (e.depth, e.id, e.text, e.enabled))
        .collect()
}

#[test]
fn the_menu_reflects_the_state() {
    let s = Settings::default_for(Platform::MacOs);
    let st = MenuState { recording: false, ax_trusted: true, shortcut_taken: false, paste_taken: true };
    let m = texts(st, &s);
    assert_eq!(m[0], (0, "heading".into(), "Huck's Voice to Text".into(), false));
    assert_eq!(m[3], (0, "dictate".into(), "Start Dictation — Option + Space".into(), true));
    assert!(m.iter().any(|e| e.1 == "rebind-paste" && e.2 == "Huck's Clipboard — Ctrl + Option + V (in use by another app)"));
    assert!(m.iter().any(|e| e.1 == "model" && e.2 == "Speech Model — base.en" && !e.3));
    assert!(m.iter().any(|e| e.1 == "version" && e.2 == "Version 0.1.1"));
    assert!(!m.iter().any(|e| e.1 == "allow-ax"));
    assert_eq!(m.last().unwrap().1, "quit");
    let full = build_menu(&s, st, "x", "1", Platform::MacOs);
    assert_eq!(full.last().unwrap().accelerator.as_deref(), Some("CmdOrCtrl+Q"));
    assert!(full.iter().any(|e| e.id == "clip-system" && e.kind == EntryKind::Check(true)));
    assert!(full.iter().any(|e| e.id == "clip-huck" && e.kind == EntryKind::Check(false)));

    let st = MenuState { recording: true, ax_trusted: false, shortcut_taken: false, paste_taken: false };
    let m = texts(st, &s);
    assert_eq!(m[3], (0, "allow-ax".into(), "Allow Accessibility…".into(), true));
    assert!(m.iter().any(|e| e.1 == "dictate" && e.2 == "Stop Dictation — Option + Space"));
    assert!(m.iter().any(|e| e.1 == "shortcuts" && !e.3));
    assert!(m.iter().any(|e| e.1 == "check-updates" && !e.3));
}

#[test]
fn model_names_lose_their_packaging() {
    assert_eq!(model_label("ggml-small.en.bin"), "small.en");
    assert_eq!(model_label("ggml-ggml-x.bin.bin"), "x");
    assert_eq!(model_label("Loading ggml-base.bin…"), "Loading ggml-base.bin…");
    assert_eq!(model_label(""), "");
}

#[test]
fn menu_items_do_what_they_say() {
    assert_eq!(menu_action("dictate"), Some(MenuAction::Dictate));
    assert_eq!(menu_action("clip-huck"), Some(MenuAction::UseClipboard(ClipboardChoice::Huck)));
    assert_eq!(menu_action("heading"), None);
    let p = Platform::MacOs;
    let mut s = Settings::default_for(p);
    assert!(!apply_menu_action(&mut s, MenuAction::ToggleKeepDrafts, p));
    assert!(!s.keep_drafts);
    assert!(apply_menu_action(&mut s, MenuAction::UseClipboard(ClipboardChoice::Huck), p));
    assert_eq!(s.clipboard, ClipboardChoice::Huck);
    s.shortcut = "F9".into();
    assert!(apply_menu_action(&mut s, MenuAction::ResetShortcuts, p));
    assert_eq!(s.shortcut, "Alt+Space");
    let before = s.clone();
    assert!(!apply_menu_action(&mut s, MenuAction::Quit, p));
    assert_eq!(s, before);
}

#[test]
fn the_normal_clipboard_item_names_the_platform_paste_keys() {
    let st = MenuState { recording: false, ax_trusted: true, shortcut_taken: false, paste_taken: false };
    let mac = build_menu(&Settings::default_for(Platform::MacOs), st, "x", "1", Platform::MacOs);
    assert!(mac.iter().any(|e| e.id == "clip-system" && e.text == "Normal Clipboard — ⌘V"));
    let win = build_menu(&Settings::default_for(Platform::Windows), st, "x", "1", Platform::Windows);
    assert!(win.iter().any(|e| e.id == "clip-system" && e.text == "Normal Clipboard — Ctrl + V"));
    assert!(win.iter().any(|e| e.id == "dictate" && e.text == "Start Dictation — Alt + Space"));
}
