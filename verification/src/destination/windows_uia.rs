//! The Windows UI Automation destination: the rules it applies to what UI Automation reports.
//! The COM calls themselves are the application's.

use crate::pipeline::{DeliveryError, Liveness};
use crate::text::{
    after_last_path_sep, char_to_uppercase, char_upper_full, chars_of, ends_with, is_blank,
    is_blank_exec, is_word, path_sep_pred, push_str, signed_decimal, signed_decimal_chars,
    slice_chars, starts_with, string_of, tail_after,
};
use vstd::prelude::*;

verus! {

/// UI Automation's control type for an edit box.
pub const EDIT_CONTROL: i32 = 50004;

/// UI Automation's control type for a document.
pub const DOCUMENT_CONTROL: i32 = 50030;

/// The file stem of an executable: its file name without `.exe` (or `.EXE`).
pub open spec fn exe_stem(exe: Seq<char>) -> Seq<char> {
    let file = tail_after(exe, path_sep_pred());
    if ".exe"@.is_suffix_of(file) || ".EXE"@.is_suffix_of(file) {
        file.subrange(0, file.len() - 4)
    } else {
        file
    }
}

/// A program's name as a person would write it: the stem with its first letter upper-case, or
/// "that app" when there is no name at all.
pub open spec fn app_name_spec(exe: Seq<char>) -> Seq<char> {
    let stem = exe_stem(exe);
    if stem.len() == 0 {
        "that app"@
    } else {
        char_upper_full(stem[0]) + stem.drop_first()
    }
}

pub fn app_name(exe: &str) -> (r: String)
    ensures
        r@ == app_name_spec(exe@),
{
    let e = chars_of(exe);
    let file = after_last_path_sep(e.as_slice());
    let lower_exe = chars_of(".exe");
    let upper_exe = chars_of(".EXE");
    proof {
        reveal_strlit(".exe");
        reveal_strlit(".EXE");
    }
    let stem = if ends_with(file.as_slice(), lower_exe.as_slice()) || ends_with(
        file.as_slice(),
        upper_exe.as_slice(),
    ) {
        slice_chars(file.as_slice(), 0, file.len() - 4)
    } else {
        slice_chars(file.as_slice(), 0, file.len())
    };
    assert(stem@ =~= exe_stem(exe@));
    if stem.len() == 0 {
        return "that app".to_owned();
    }
    let mut name = char_to_uppercase(stem[0]);
    let rest = slice_chars(stem.as_slice(), 1, stem.len());
    let rest = string_of(rest.as_slice());
    push_str(&mut name, rest.as_str());
    assert(stem@.subrange(1, stem@.len() as int) =~= stem@.drop_first());
    name
}

/// Classic edit controls, which take a selection replacement directly.
pub open spec fn edit_class(class: Seq<char>) -> bool {
    class == "Edit"@ || "RichEdit"@.is_prefix_of(class) || "RICHEDIT"@.is_prefix_of(class)
}

pub fn is_edit_class(class: &str) -> (r: bool)
    ensures
        r == edit_class(class@),
{
    let c = chars_of(class);
    let c = c.as_slice();
    let a = chars_of("RichEdit");
    let b = chars_of("RICHEDIT");
    is_word(c, "Edit") || starts_with(c, a.as_slice()) || starts_with(c, b.as_slice())
}

/// Whether a captured element may be pinned: never a password box, and only an edit or
/// document control that can still be read.
pub open spec fn element_verdict_spec(password: bool, role: Option<i32>) -> Result<(), Seq<char>> {
    if password {
        Err("secure-field"@)
    } else {
        match role {
            None => Err("element-unreachable"@),
            Some(r) => if r == EDIT_CONTROL || r == DOCUMENT_CONTROL {
                Ok(())
            } else {
                Err("not-a-text-field:"@ + signed_decimal(r as int))
            },
        }
    }
}

pub fn element_verdict(password: bool, role: Option<i32>) -> (r: Result<(), String>)
    ensures
        match r {
            Ok(()) => element_verdict_spec(password, role) == Ok::<(), Seq<char>>(()),
            Err(e) => element_verdict_spec(password, role) == Err::<(), Seq<char>>(e@),
        },
{
    if password {
        return Err("secure-field".to_owned());
    }
    match role {
        None => Err("element-unreachable".to_owned()),
        Some(r) => if r == EDIT_CONTROL || r == DOCUMENT_CONTROL {
            Ok(())
        } else {
            let mut m = chars_of("not-a-text-field:");
            let d = signed_decimal_chars(r as i64);
            crate::text::append_chars(&mut m, d.as_slice());
            Err(string_of(m.as_slice()))
        },
    }
}

/// The indicator's label: the application, then the field's name unless it is blank.
pub fn field_label(app: &str, name: Option<String>) -> (r: String)
    ensures
        r@ == app@ + " — "@ + match name {
            Some(n) => if is_blank(n@) {
                "text field"@
            } else {
                n@
            },
            None => "text field"@,
        },
{
    let mut m = String::new();
    push_str(&mut m, app);
    push_str(&mut m, " — ");
    match &name {
        Some(n) => {
            let c = chars_of(n.as_str());
            if is_blank_exec(c.as_slice()) {
                push_str(&mut m, "text field");
            } else {
                push_str(&mut m, n.as_str());
            }
        },
        None => push_str(&mut m, "text field"),
    }
    m
}

/// Still the pinned element: reachable in the same process, the same control type, and, for a
/// classic edit box, its window still open.
pub open spec fn uia_liveness_spec(
    pid_now: Option<i32>,
    pinned_pid: i32,
    role_now: Option<i32>,
    pinned_role: i32,
    window_open: Option<bool>,
) -> Option<Seq<char>> {
    match pid_now {
        None => Some("element-unreachable"@),
        Some(p) => if p != pinned_pid {
            Some("process-changed"@)
        } else if role_now != Some(pinned_role) {
            Some("role-changed"@)
        } else if window_open == Some(false) {
            Some("window-closed"@)
        } else {
            None
        },
    }
}

/// The liveness of a pinned element. `window_open` is `None` when the element has no classic
/// edit window.
pub fn uia_liveness(
    pid_now: Option<i32>,
    pinned_pid: i32,
    role_now: Option<i32>,
    pinned_role: i32,
    window_open: Option<bool>,
) -> (l: Liveness)
    ensures
        match uia_liveness_spec(pid_now, pinned_pid, role_now, pinned_role, window_open) {
            None => l is Alive,
            Some(why) => l matches Liveness::Dead { reason } && reason@ == why,
        },
{
    match pid_now {
        None => Liveness::dead("element-unreachable"),
        Some(p) => if p != pinned_pid {
            Liveness::dead("process-changed")
        } else if role_now != Some(pinned_role) {
            Liveness::dead("role-changed")
        } else if window_open == Some(false) {
            Liveness::dead("window-closed")
        } else {
            Liveness::Alive
        },
    }
}

/// Before any write: a password box is refused. An unreadable password flag counts as not a
/// password box, as UI Automation reports most fields without one.
pub fn secure_refusal(password: Option<bool>) -> (r: Option<DeliveryError>)
    ensures
        password == Some(true) ==> r == Some(DeliveryError::RefusedSecureField),
        password != Some(true) ==> r is None,
{
    if password == Some(true) {
        Some(DeliveryError::RefusedSecureField)
    } else {
        None
    }
}

/// A password box is never pinned, whatever control it is.
pub proof fn law_password_fields_are_never_pinned(role: Option<i32>)
    ensures
        element_verdict_spec(true, role) == Err::<(), Seq<char>>("secure-field"@),
{
}

} // verus!
