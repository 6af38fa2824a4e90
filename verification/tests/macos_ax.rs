use hvtt::destination::macos_ax::{
    app_name_from_ps, ax_liveness, element_verdict, field_label, password_state, secure_refusal,
};
use hvtt::pipeline::{DeliveryError, Liveness};

#[test]
fn password_subroles_fail_closed() {
    assert_eq!(password_state(Some("AXSecureTextField")), Some(true));
    assert_eq!(password_state(Some("")), Some(false));
    assert_eq!(password_state(Some("AXStandardTextField")), Some(false));
    assert_eq!(password_state(None), None);
}

#[test]
fn only_known_safe_text_roles_are_pinned() {
    assert_eq!(element_verdict("AXTextArea", Some(false)), Ok(()));
    assert_eq!(element_verdict("AXComboBox", Some(false)), Ok(()));
    assert_eq!(element_verdict("AXTextArea", Some(true)), Err("secure-field".into()));
    assert_eq!(element_verdict("AXTextArea", None), Err("password-unknown".into()));
    assert_eq!(element_verdict("AXButton", Some(false)), Err("not-a-text-field:AXButton".into()));
    assert_eq!(
        secure_refusal(None),
        Some(DeliveryError::Other("could not confirm that the field is not secure".into()))
    );
    assert_eq!(secure_refusal(Some(false)), None);
}

#[test]
fn labels_name_the_app_and_the_field() {
    assert_eq!(field_label("TextEdit", Some("Body".into()), Some("p".into()), None), "TextEdit — Body");
    assert_eq!(field_label("Notes", None, Some("Search".into()), Some("t".into())), "Notes — Search");
    assert_eq!(field_label("Notes", None, None, None), "Notes — text field");
    assert_eq!(app_name_from_ps("/Applications/TextEdit.app/Contents/MacOS/TextEdit\n"), "TextEdit");
    assert_eq!(app_name_from_ps("  \n"), "application");
}

#[test]
fn an_element_is_alive_while_role_and_process_hold() {
    assert_eq!(ax_liveness(Some("AXTextArea".into()), "AXTextArea", Some(9), 9), Liveness::Alive);
    assert_eq!(ax_liveness(None, "AXTextArea", Some(9), 9), Liveness::dead("element-unreachable"));
    assert_eq!(ax_liveness(Some("AXGroup".into()), "AXTextArea", Some(9), 9), Liveness::dead("role-changed"));
    assert_eq!(ax_liveness(Some("AXTextArea".into()), "AXTextArea", None, 9), Liveness::dead("process-changed"));
}
