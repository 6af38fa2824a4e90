//! The macOS Accessibility destination: the rules it applies to what the Accessibility API
//! reports. Reading and writing the attributes is the application's.
//!
//! Password fields are refused, and an element whose subrole cannot be read fails closed.
//! Liveness is the same element, still the same role, in the same process.

use crate::pipeline::{DeliveryError, Liveness};
use crate::text::{after_last_slash, char_pred, chars_of, is_word, push_str, string_of, tail_after, trim, trim_chars};
use vstd::prelude::*;

verus! {

/// Whether a field is a password box, from its subrole. An unreadable subrole is unknown, and
/// unknown is treated as not safe by every caller.
pub fn password_state(subrole: Option<&str>) -> (r: Option<bool>)
    ensures
        match subrole {
            Some(s) => r == Some(s@ == "AXSecureTextField"@),
            None => r is None,
        },
{
    match subrole {
        Some(s) => {
            let c = chars_of(s);
            Some(is_word(c.as_slice(), "AXSecureTextField"))
        },
        None => None,
    }
}

/// The roles that hold text the user types.
pub open spec fn text_role(role: Seq<char>) -> bool {
    role == "AXTextArea"@ || role == "AXTextField"@ || role == "AXComboBox"@
}

/// Whether a captured element may be pinned: never a password box, never one whose kind is
/// unknown, and only a text role.
pub open spec fn element_verdict_spec(role: Seq<char>, password: Option<bool>) -> Result<(), Seq<char>> {
    match password {
        Some(true) => Err("secure-field"@),
        None => Err("password-unknown"@),
        Some(false) => if text_role(role) {
            Ok(())
        } else {
            Err("not-a-text-field:"@ + role)
        },
    }
}

pub fn element_verdict(role: &str, password: Option<bool>) -> (r: Result<(), String>)
    ensures
        match r {
            Ok(()) => element_verdict_spec(role@, password) == Ok::<(), Seq<char>>(()),
            Err(e) => element_verdict_spec(role@, password) == Err::<(), Seq<char>>(e@),
        },
{
    match password {
        Some(true) => return Err("secure-field".to_owned()),
        None => return Err("password-unknown".to_owned()),
        Some(false) => {},
    }
    let c = chars_of(role);
    let c = c.as_slice();
    if is_word(c, "AXTextArea") || is_word(c, "AXTextField") || is_word(c, "AXComboBox") {
        Ok(())
    } else {
        let mut m = String::new();
        push_str(&mut m, "not-a-text-field:");
        push_str(&mut m, role);
        Err(m)
    }
}

/// The first of the element's description, placeholder and title that it has, else "text
/// field".
pub open spec fn detail_spec(
    description: Option<Seq<char>>,
    placeholder: Option<Seq<char>>,
    title: Option<Seq<char>>,
) -> Seq<char> {
    match description {
        Some(d) => d,
        None => match placeholder {
            Some(p) => p,
            None => match title {
                Some(t) => t,
                None => "text field"@,
            },
        },
    }
}

pub open spec fn opt_view(o: Option<String>) -> Option<Seq<char>> {
    match o {
        Some(s) => Some(s@),
        None => None,
    }
}

/// The indicator's label for a pinned field: the application, then what the field is.
pub fn field_label(
    app: &str,
    description: Option<String>,
    placeholder: Option<String>,
    title: Option<String>,
) -> (r: String)
    ensures
        r@ == app@ + " — "@ + detail_spec(
            opt_view(description),
            opt_view(placeholder),
            opt_view(title),
        ),
{
    let mut m = String::new();
    push_str(&mut m, app);
    push_str(&mut m, " — ");
    match (description, placeholder, title) {
        (Some(d), _, _) => push_str(&mut m, d.as_str()),
        (None, Some(p), _) => push_str(&mut m, p.as_str()),
        (None, None, Some(t)) => push_str(&mut m, t.as_str()),
        (None, None, None) => push_str(&mut m, "text field"),
    }
    m
}

/// An application's name from `ps -o comm=`: the last part of the command's path, or
/// "application" when there is none.
pub open spec fn app_name_spec(ps_output: Seq<char>) -> Seq<char> {
    let name = tail_after(trim(ps_output), char_pred('/'));
    if name.len() == 0 {
        "application"@
    } else {
        name
    }
}

pub fn app_name_from_ps(ps_output: &str) -> (r: String)
    ensures
        r@ == app_name_spec(ps_output@),
{
    let c = chars_of(ps_output);
    let t = trim_chars(c.as_slice());
    let name = after_last_slash(t.as_slice());
    if name.len() == 0 {
        "application".to_owned()
    } else {
        string_of(name.as_slice())
    }
}

/// Still the pinned element: reachable, the same role, the same process.
pub open spec fn ax_liveness_spec(
    role_now: Option<Seq<char>>,
    pinned_role: Seq<char>,
    pid_now: Option<i32>,
    pinned_pid: i32,
) -> Option<Seq<char>> {
    match role_now {
        None => Some("element-unreachable"@),
        Some(r) => if r != pinned_role {
            Some("role-changed"@)
        } else if pid_now == Some(pinned_pid) {
            None
        } else {
            Some("process-changed"@)
        },
    }
}

/// The liveness of a pinned element, `Dead` with the reason when it is no longer the one
/// pinned.
pub fn ax_liveness(role_now: Option<String>, pinned_role: &str, pid_now: Option<i32>, pinned_pid: i32) -> (l: Liveness)
    ensures
        match ax_liveness_spec(opt_view(role_now), pinned_role@, pid_now, pinned_pid) {
            None => l is Alive,
            Some(why) => l matches Liveness::Dead { reason } && reason@ == why,
        },
{
    match role_now {
        None => Liveness::dead("element-unreachable"),
        Some(r) => {
            let a = chars_of(r.as_str());
            let b = chars_of(pinned_role);
            if !crate::text::seq_eq(a.as_slice(), b.as_slice()) {
                Liveness::dead("role-changed")
            } else {
                match pid_now {
                    Some(p) => if p == pinned_pid {
                        Liveness::Alive
                    } else {
                        Liveness::dead("process-changed")
                    },
                    None => Liveness::dead("process-changed"),
                }
            }
        },
    }
}

/// What the password check says before a write: refuse a password box, refuse when it cannot
/// be told, and otherwise nothing.
pub fn secure_refusal(password: Option<bool>) -> (r: Option<DeliveryError>)
    ensures
        password == Some(true) ==> r == Some(DeliveryError::RefusedSecureField),
        password is None ==> (r matches Some(DeliveryError::Other(m))
            && m@ == "could not confirm that the field is not secure"@),
        password == Some(false) ==> r is None,
{
    match password {
        Some(true) => Some(DeliveryError::RefusedSecureField),
        None => Some(DeliveryError::Other("could not confirm that the field is not secure".to_owned())),
        Some(false) => None,
    }
}

/// A password box is never pinned, and neither is a field whose kind cannot be told.
pub proof fn law_password_fields_are_never_pinned(role: Seq<char>)
    ensures
        element_verdict_spec(role, Some(true)) == Err::<(), Seq<char>>("secure-field"@),
        element_verdict_spec(role, None) is Err,
{
}

} // verus!
