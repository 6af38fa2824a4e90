use hvtt::win_surface::{foreground_to_return, no_activate_style, WS_EX_APPWINDOW, WS_EX_NOACTIVATE, WS_EX_TOOLWINDOW};

#[test]
fn the_composer_never_takes_the_foreground_until_it_needs_keys() {
    let style: isize = WS_EX_APPWINDOW | 0x10;
    let on = no_activate_style(style, true);
    assert_eq!(on, WS_EX_NOACTIVATE | WS_EX_TOOLWINDOW | 0x10);
    let off = no_activate_style(on, false);
    assert_eq!(off, WS_EX_TOOLWINDOW | 0x10);
}

#[test]
fn the_foreground_goes_back_only_to_another_program() {
    assert!(foreground_to_return(42, 7, "Notepad"));
    assert!(!foreground_to_return(7, 7, "Notepad"));
    assert!(!foreground_to_return(42, 7, "Shell_TrayWnd"));
    assert!(!foreground_to_return(42, 7, "TopLevelWindowForOverflowXamlIsland"));
}

#[test]
fn only_real_words_are_pasted_from_hucks_clipboard() {
    assert_eq!(hvtt::desktop::text_to_paste(Some("words".into())), Some("words".into()));
    assert_eq!(hvtt::desktop::text_to_paste(Some(" \n ".into())), None);
    assert_eq!(hvtt::desktop::text_to_paste(None), None);
}
