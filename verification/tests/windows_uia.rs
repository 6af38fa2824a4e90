use hvtt::destination::windows_uia::{
    app_name, element_verdict, field_label, is_edit_class, secure_refusal, uia_liveness,
    DOCUMENT_CONTROL, EDIT_CONTROL,
};
use hvtt::pipeline::{DeliveryError, Liveness};

#[test]
fn app_names_read_like_names() {
    assert_eq!(app_name(r"C:\Windows\System32\notepad.exe"), "Notepad");
    assert_eq!(app_name(r"C:\Program Files\Microsoft Office\root\Office16\WINWORD.EXE"), "WINWORD");
    assert_eq!(app_name(""), "that app");
}

#[test]
fn classic_edit_controls_are_recognised() {
    for class in ["Edit", "RichEdit20W", "RICHEDIT50W", "RichEditD2DPT"] {
        assert!(is_edit_class(class), "{class}");
    }
    assert!(!is_edit_class("Chrome_WidgetWin_1"));
    assert!(!is_edit_class("Scintilla"));
}

#[test]
fn only_unguarded_text_controls_are_pinned() {
    assert_eq!(element_verdict(true, Some(EDIT_CONTROL)), Err("secure-field".into()));
    assert_eq!(element_verdict(false, None), Err("element-unreachable".into()));
    assert_eq!(element_verdict(false, Some(EDIT_CONTROL)), Ok(()));
    assert_eq!(element_verdict(false, Some(DOCUMENT_CONTROL)), Ok(()));
    assert_eq!(element_verdict(false, Some(50000)), Err("not-a-text-field:50000".into()));
    assert_eq!(element_verdict(false, Some(-3)), Err("not-a-text-field:-3".into()));
    assert_eq!(field_label("Notepad", Some("Text editor".into())), "Notepad — Text editor");
    assert_eq!(field_label("Notepad", Some("  ".into())), "Notepad — text field");
    assert_eq!(field_label("Notepad", None), "Notepad — text field");
}

#[test]
fn a_pinned_element_stays_the_same_element() {
    assert_eq!(uia_liveness(Some(4), 4, Some(EDIT_CONTROL), EDIT_CONTROL, None), Liveness::Alive);
    assert_eq!(uia_liveness(None, 4, None, EDIT_CONTROL, None), Liveness::dead("element-unreachable"));
    assert_eq!(uia_liveness(Some(5), 4, Some(EDIT_CONTROL), EDIT_CONTROL, None), Liveness::dead("process-changed"));
    assert_eq!(uia_liveness(Some(4), 4, None, EDIT_CONTROL, None), Liveness::dead("role-changed"));
    assert_eq!(
        uia_liveness(Some(4), 4, Some(EDIT_CONTROL), EDIT_CONTROL, Some(false)),
        Liveness::dead("window-closed")
    );
    assert_eq!(secure_refusal(Some(true)), Some(DeliveryError::RefusedSecureField));
    assert_eq!(secure_refusal(None), None);
}
