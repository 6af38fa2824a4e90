//! The desktop program's decisions.
//!
//! The program is a loop of outside work (the shortcut registry, the microphone, the
//! recogniser, the accessibility API, the window) and decisions between them. The outside work
//! is the application's; each decision is here, as a function from what was observed to what to
//! do next.

use crate::destination::{
    chromium_exe, is_chromium_executable, is_unsupported_executable, pin_message, unsupported_app,
    PinError,
};
use crate::engine::{engine_message, EngineError};
use crate::pipeline::{CompletionReport, DeliveryError, DeliveryOutcome};
use crate::platform::Platform;
use crate::session::{allowed, SessionState};
use crate::transcript::{Provenance, Transcript};
use crate::settings::{
    default_paste_shortcut, default_paste_shortcut_spec, default_shortcut, default_shortcut_spec,
    describe_shortcut, described, looks_valid, normal_paste_keys, normal_paste_keys_spec,
    shortcut_looks_valid, ClipboardChoice, Settings,
};
use crate::text::{
    after_last_slash, char_pred, chars_of, eq_ignore_ascii_case, eq_ignore_case, is_blank,
    is_blank_exec, push_str, string_of, tail_after, trim, trim_chars,
};
use vstd::prelude::*;

verus! {

// ---------------------------------------------------------------------------- the session

/// What the dictation shortcut does.
#[derive(Debug, Clone, Copy, PartialEq, Eq, Structural)]
pub enum Toggle {
    /// A shortcut is being chosen: the press belongs to that.
    Ignore,
    Stop,
    Start,
}

pub fn toggle_action(rebinding: bool, capturing: bool) -> (t: Toggle)
    ensures
        rebinding ==> t is Ignore,
        !rebinding && capturing ==> t is Stop,
        !rebinding && !capturing ==> t is Start,
{
    if rebinding {
        Toggle::Ignore
    } else if capturing {
        Toggle::Stop
    } else {
        Toggle::Start
    }
}

/// Move the session to `next` if that is a legal move; an illegal one is ignored and the
/// session stays where it was.
pub fn settle(current: &SessionState, next: SessionState) -> (s: SessionState)
    ensures
        allowed(*current, next) ==> s == next,
        !allowed(*current, next) ==> s == *current,
{
    match current.transition_to(next) {
        Ok(s) => s,
        Err(_) => same_state(current),
    }
}

fn same_state(s: &SessionState) -> (r: SessionState)
    ensures
        r == *s,
{
    match s {
        SessionState::Idle => SessionState::Idle,
        SessionState::Recording => SessionState::Recording,
        SessionState::Transcribing => SessionState::Transcribing,
        SessionState::Ready => SessionState::Ready,
        SessionState::Error { message } => SessionState::Error { message: message.clone() },
    }
}

/// A scheduled hide goes ahead only if nothing newer has started and the microphone is not
/// open.
pub fn should_hide(scheduled_for: u64, generation_now: u64, capturing: bool) -> (r: bool)
    ensures
        r == (scheduled_for == generation_now && !capturing),
{
    scheduled_for == generation_now && !capturing
}

/// Dismissing the composer is refused while recognition is running.
pub fn may_dismiss(state: &SessionState) -> (r: bool)
    ensures
        r == !(*state is Transcribing),
{
    !matches!(state, SessionState::Transcribing)
}

/// A shortcut may be rebound only while nothing is being recorded or recognised.
pub fn may_rebind(state: &SessionState) -> (r: bool)
    ensures
        r == !(*state is Recording || *state is Transcribing),
{
    !matches!(state, SessionState::Recording | SessionState::Transcribing)
}

// ---------------------------------------------------------------------------- recording

pub open spec fn microphone_message_spec(why: Seq<char>) -> Seq<char> {
    why + " Check microphone access in System Settings › Privacy."@
}

/// The error shown when the microphone will not open.
pub fn microphone_message(why: &str) -> (r: String)
    ensures
        r@ == microphone_message_spec(why@),
{
    let mut m = String::new();
    push_str(&mut m, why);
    push_str(&mut m, " Check microphone access in System Settings › Privacy.");
    m
}

/// A device called `name`.
pub open spec fn is_named(o: Option<String>, name: Seq<char>) -> bool {
    o matches Some(n) && n@ == name
}

/// The microphone to open: the first device called `want` if there is one, otherwise the
/// system default. `names` are the input devices' names, `None` where a device has none.
pub fn pick_device(names: &[Option<String>], want: Option<&str>, default: Option<usize>) -> (r: Option<usize>)
    ensures
        match want {
            None => r == default,
            Some(w) => if exists|i: int| 0 <= i < names@.len() && is_named(#[trigger] names@[i], w@) {
                r matches Some(i) && i < names@.len() && is_named(names@[i as int], w@) && forall|j: int|
                    0 <= j < i ==> !is_named(#[trigger] names@[j], w@)
            } else {
                r == default
            },
        },
{
    let w = match want {
        None => return default,
        Some(w) => w,
    };
    let wc = chars_of(w);
    let mut i: usize = 0;
    while i < names.len()
        invariant
            want == Some(w),
            wc@ == w@,
            i <= names@.len(),
            forall|j: int| 0 <= j < i ==> !is_named(#[trigger] names@[j], w@),
        decreases names@.len() - i,
    {
        match &names[i] {
            Some(n) => {
                let nc = chars_of(n.as_str());
                if crate::text::seq_eq(nc.as_slice(), wc.as_slice()) {
                    assert(is_named(names@[i as int], w@));
                    return Some(i);
                }
            },
            None => {},
        }
        i = i + 1;
    }
    default
}

/// What happens once the microphone closes: too short a recording is not worth recognising.
#[derive(Debug, Clone, PartialEq, Eq)]
pub enum AfterRecording {
    TooShort { message: String, hide_ms: u64 },
    Transcribe { message: String },
}

pub fn after_recording(sample_count: usize, sample_rate: u32) -> (r: AfterRecording)
    ensures
        crate::audio::long_enough(sample_count as nat, sample_rate as nat) ==> (r matches AfterRecording::Transcribe { message }
            && message@ == "Transcribing…"@),
        !crate::audio::long_enough(sample_count as nat, sample_rate as nat) ==> (r matches AfterRecording::TooShort { message, hide_ms }
            && message@ == "That was too short to transcribe."@ && hide_ms == 1800),
{
    if crate::audio::is_long_enough(sample_count, sample_rate) {
        AfterRecording::Transcribe { message: "Transcribing…".to_owned() }
    } else {
        AfterRecording::TooShort { message: "That was too short to transcribe.".to_owned(), hide_ms: 1800 }
    }
}

/// What recognition produced.
#[derive(Debug)]
pub enum Recognised {
    /// Nothing but silence: said so, and the composer hides soon.
    Nothing { message: String, hide_ms: u64 },
    /// Words, trimmed, ready to settle into the transcript.
    Words(String),
    /// The recogniser failed; the session goes to its error state with this message.
    Failed(String),
}

pub fn after_recognition(result: Result<String, EngineError>) -> (r: Recognised)
    ensures
        match result {
            Ok(t) => if is_blank(t@) {
                r matches Recognised::Nothing { message, hide_ms } && message@
                    == "No speech was recognised in that recording."@ && hide_ms == 1800
            } else {
                r matches Recognised::Words(w) && w@ == trim(t@)
            },
            Err(e) => r matches Recognised::Failed(m) && m@ == engine_message(e),
        },
{
    match result {
        Ok(t) => {
            let c = chars_of(t.as_str());
            if is_blank_exec(c.as_slice()) {
                Recognised::Nothing {
                    message: "No speech was recognised in that recording.".to_owned(),
                    hide_ms: 1800,
                }
            } else {
                let w = trim_chars(c.as_slice());
                Recognised::Words(string_of(w.as_slice()))
            }
        },
        Err(e) => Recognised::Failed(e.message()),
    }
}

// ---------------------------------------------------------------------------- completion

/// The line shown once the words are safe, in the words of the clipboard that was chosen: on
/// the normal clipboard they are "copied" and pasted with its keys (⌘V on macOS, Ctrl + V
/// elsewhere), on Huck's own they are "on Huck's
/// clipboard" and pasted with its shortcut, `paste_key`. A failed clipboard keeps the full
/// completion message, since it says where the words are.
pub open spec fn completion_message_spec(
    clipboard_ok: bool,
    message: Seq<char>,
    delivery: DeliveryOutcome,
    choice: ClipboardChoice,
    paste_key: Seq<char>,
    platform: Platform,
) -> Seq<char> {
    let kept = if choice is Huck { "on Huck's clipboard"@ } else { "copied"@ };
    let kept_capital = if choice is Huck { "On Huck's clipboard"@ } else { "Copied"@ };
    let key = if choice is Huck { paste_key } else { normal_paste_keys_spec(platform) };
    if !clipboard_ok {
        message
    } else {
        match delivery {
            DeliveryOutcome::NotAttempted => kept_capital + " — press "@ + key + " to paste."@,
            DeliveryOutcome::Failed { label, error: DeliveryError::DestinationLost, .. } => "Couldn't reach "@ + label@
                + " — "@ + kept + ". Press "@ + key + " to paste."@,
            DeliveryOutcome::Failed { error: DeliveryError::RefusedSecureField, .. } => "That's a password box, so Huck left it alone — "@
                + kept + "."@,
            DeliveryOutcome::Failed { label, .. } => "Couldn't type into "@ + label@ + " — "@ + kept
                + ". Press "@ + key + " to paste."@,
            DeliveryOutcome::Delivered { .. } => message,
        }
    }
}

pub fn completion_message(
    report: &CompletionReport,
    choice: ClipboardChoice,
    paste_key: &str,
    platform: Platform,
) -> (r: String)
    ensures
        r@ == completion_message_spec(
            report.clipboard_ok,
            report.message@,
            report.delivery,
            choice,
            paste_key@,
            platform,
        ),
{
    let huck = matches!(choice, ClipboardChoice::Huck);
    let kept = if huck {
        "on Huck's clipboard"
    } else {
        "copied"
    };
    let key = if huck {
        paste_key
    } else {
        normal_paste_keys(platform)
    };
    let mut m = String::new();
    if !report.clipboard_ok {
        push_str(&mut m, report.message.as_str());
        return m;
    }
    match &report.delivery {
        DeliveryOutcome::NotAttempted => {
            push_str(&mut m, if huck { "On Huck's clipboard" } else { "Copied" });
            push_str(&mut m, " — press ");
            push_str(&mut m, key);
            push_str(&mut m, " to paste.");
        },
        DeliveryOutcome::Failed { label, error: DeliveryError::DestinationLost, .. } => {
            push_str(&mut m, "Couldn't reach ");
            push_str(&mut m, label.as_str());
            push_str(&mut m, " — ");
            push_str(&mut m, kept);
            push_str(&mut m, ". Press ");
            push_str(&mut m, key);
            push_str(&mut m, " to paste.");
        },
        DeliveryOutcome::Failed { error: DeliveryError::RefusedSecureField, .. } => {
            push_str(&mut m, "That's a password box, so Huck left it alone — ");
            push_str(&mut m, kept);
            push_str(&mut m, ".");
        },
        DeliveryOutcome::Failed { label, .. } => {
            push_str(&mut m, "Couldn't type into ");
            push_str(&mut m, label.as_str());
            push_str(&mut m, " — ");
            push_str(&mut m, kept);
            push_str(&mut m, ". Press ");
            push_str(&mut m, key);
            push_str(&mut m, " to paste.");
        },
        DeliveryOutcome::Delivered { .. } => {
            push_str(&mut m, report.message.as_str());
        },
    }
    m
}

/// How long the composer stays after completion, in milliseconds, or `None` to keep it until
/// dismissed: kept while the clipboard failed (the words are only in the composer) or while
/// permission is being asked for; briefly after a delivery; longer when the user must paste.
pub fn hide_delay(clipboard_ok: bool, ask_permission: bool, delivered: bool) -> (r: Option<u64>)
    ensures
        (!clipboard_ok || ask_permission) ==> r is None,
        (clipboard_ok && !ask_permission && delivered) ==> r == Some(1200u64),
        (clipboard_ok && !ask_permission && !delivered) ==> r == Some(2600u64),
{
    if !clipboard_ok || ask_permission {
        None
    } else if delivered {
        Some(1200)
    } else {
        Some(2600)
    }
}

// ---------------------------------------------------------------------------- pinning

/// The name the user knows an application by: an Electron app's own name, else the last part
/// of its executable path, else "that app".
pub open spec fn pin_app_label_spec(exe: Seq<char>) -> Seq<char> {
    match unsupported_app(exe) {
        Some(n) => n,
        None => {
            let tail = tail_after(exe, char_pred('/'));
            if tail.len() > 0 {
                tail
            } else {
                "that app"@
            }
        },
    }
}

pub fn pin_app_label(exe: &str) -> (r: String)
    ensures
        r@ == pin_app_label_spec(exe@),
{
    match is_unsupported_executable(exe) {
        Some(n) => n,
        None => {
            let c = chars_of(exe);
            let tail = after_last_slash(c.as_slice());
            if tail.len() > 0 {
                string_of(tail.as_slice())
            } else {
                "that app".to_owned()
            }
        },
    }
}

/// The way into the focused field, decided at the keypress.
#[derive(Debug, Clone, PartialEq, Eq)]
pub enum PinStep {
    /// The browser extension holds the pin.
    UseBrowser,
    /// The validated accessibility element, with a paste behind it.
    UseAccessibility,
    /// A paste while nothing moves.
    UsePaste,
    /// Validate the captured accessibility element, then decide with `after_validation`.
    Validate,
    /// No destination; the words will wait on the clipboard.
    Refuse(PinError),
}

#[derive(Debug, Clone, PartialEq, Eq)]
pub struct PinPlan {
    pub step: PinStep,
    /// The extension pinned something, but the frontmost program is not a browser: let it go.
    pub unpin_browser: bool,
    /// Ask for accessibility permission now. Asked once per run.
    pub ask_permission: bool,
}

/// The first part of pinning. Chromium browsers use the extension when it pinned something;
/// without accessibility permission nothing else can be pinned (and permission is asked for
/// once); Chromium without the extension and Electron apps take a paste if one can be made;
/// everything else has its captured element validated.
pub open spec fn pin_plan_spec(
    exe: Seq<char>,
    browser_pinned: bool,
    trusted: bool,
    permission_asked: bool,
    can_paste: bool,
) -> PinPlan {
    let chromium = chromium_exe(exe);
    let unpin = !chromium && browser_pinned;
    if chromium && browser_pinned {
        PinPlan { step: PinStep::UseBrowser, unpin_browser: false, ask_permission: false }
    } else if !trusted {
        PinPlan {
            step: PinStep::Refuse(PinError::AccessibilityPermissionMissing),
            unpin_browser: unpin,
            ask_permission: !permission_asked,
        }
    } else if chromium || unsupported_app(exe) is Some {
        PinPlan {
            step: if can_paste {
                PinStep::UsePaste
            } else {
                PinStep::Refuse(PinError::Unsupported { app: arbitrary() })
            },
            unpin_browser: unpin,
            ask_permission: false,
        }
    } else {
        PinPlan { step: PinStep::Validate, unpin_browser: unpin, ask_permission: false }
    }
}

pub fn plan_pin(
    exe: &str,
    browser_pinned: bool,
    trusted: bool,
    permission_asked: bool,
    can_paste: bool,
) -> (p: PinPlan)
    ensures
        p.unpin_browser == pin_plan_spec(exe@, browser_pinned, trusted, permission_asked, can_paste).unpin_browser,
        p.ask_permission == pin_plan_spec(exe@, browser_pinned, trusted, permission_asked, can_paste).ask_permission,
        match pin_plan_spec(exe@, browser_pinned, trusted, permission_asked, can_paste).step {
            PinStep::Refuse(PinError::Unsupported { .. }) => p.step matches PinStep::Refuse(
                PinError::Unsupported { app },
            ) && app@ == pin_app_label_spec(exe@),
            s => p.step == s,
        },
{
    let chromium = is_chromium_executable(exe);
    let unpin = !chromium && browser_pinned;
    if chromium && browser_pinned {
        return PinPlan { step: PinStep::UseBrowser, unpin_browser: false, ask_permission: false };
    }
    if !trusted {
        return PinPlan {
            step: PinStep::Refuse(PinError::AccessibilityPermissionMissing),
            unpin_browser: unpin,
            ask_permission: !permission_asked,
        };
    }
    let unsupported = is_unsupported_executable(exe).is_some();
    if chromium || unsupported {
        let step = if can_paste {
            PinStep::UsePaste
        } else {
            PinStep::Refuse(PinError::Unsupported { app: pin_app_label(exe) })
        };
        return PinPlan { step, unpin_browser: unpin, ask_permission: false };
    }
    PinPlan { step: PinStep::Validate, unpin_browser: unpin, ask_permission: false }
}

/// The second part, after validation: a validated element is used (with a paste behind it); a
/// password box is refused outright; anything else falls back to a paste, or to refusal.
pub fn after_validation(validated: Result<(), String>, can_paste: bool) -> (s: PinStep)
    ensures
        validated is Ok ==> s is UseAccessibility,
        validated matches Err(why) && why@ == "secure-field"@ ==> s == PinStep::Refuse(
            PinError::SecureField,
        ),
        validated matches Err(why) && why@ != "secure-field"@ ==> s == if can_paste {
            PinStep::UsePaste
        } else {
            PinStep::Refuse(PinError::NotATextField)
        },
{
    match validated {
        Ok(()) => PinStep::UseAccessibility,
        Err(why) => {
            let c = chars_of(why.as_str());
            if crate::text::is_word(c.as_slice(), "secure-field") {
                PinStep::Refuse(PinError::SecureField)
            } else if can_paste {
                PinStep::UsePaste
            } else {
                PinStep::Refuse(PinError::NotATextField)
            }
        },
    }
}

/// The composer's line once a destination is pinned.
pub fn listening_message(label: &str) -> (r: String)
    ensures
        r@ == "Listening — will send to "@ + label@,
{
    let mut m = String::new();
    push_str(&mut m, "Listening — will send to ");
    push_str(&mut m, label);
    m
}

/// What a refused pin shows: always a note beside the pin, and the main message too unless
/// the refusal is an expected one.
pub fn refusal_notes(e: &PinError) -> (r: (String, Option<String>))
    ensures
        r.0@ == pin_message(*e),
        (*e is Unsupported || *e is NotATextField) ==> r.1 is None,
        !(*e is Unsupported || *e is NotATextField) ==> (r.1 matches Some(m) && m@ == pin_message(*e)),
{
    let note = e.message();
    if e.is_expected() {
        (note, None)
    } else {
        (note, Some(e.message()))
    }
}

// ---------------------------------------------------------------------------- shortcuts

/// Why a shortcut could not be registered.
#[derive(Debug, Clone, Copy, PartialEq, Eq, Structural)]
pub enum ShortcutProblem {
    /// Only modifiers: it could never fire.
    NeedsKey,
    /// The registry could not read it.
    NotUnderstood,
    /// Another program holds it.
    InUse,
}

pub open spec fn shortcut_problem_spec(p: ShortcutProblem, accelerator: Seq<char>, platform: Platform) -> Seq<char> {
    let d = described(accelerator, platform);
    match p {
        ShortcutProblem::NeedsKey => d + " needs a normal key as well as modifiers."@,
        ShortcutProblem::NotUnderstood => d + " isn't a shortcut macOS understands."@,
        ShortcutProblem::InUse => d
            + " is already used by another app. Pick a different one in the H menu › Settings › Shortcuts."@,
    }
}

pub fn shortcut_problem(p: ShortcutProblem, accelerator: &str, platform: Platform) -> (r: String)
    ensures
        r@ == shortcut_problem_spec(p, accelerator@, platform),
{
    let mut m = describe_shortcut(accelerator, platform);
    match p {
        ShortcutProblem::NeedsKey => push_str(&mut m, " needs a normal key as well as modifiers."),
        ShortcutProblem::NotUnderstood => push_str(&mut m, " isn't a shortcut macOS understands."),
        ShortcutProblem::InUse => push_str(
            &mut m,
            " is already used by another app. Pick a different one in the H menu › Settings › Shortcuts.",
        ),
    }
    m
}

/// The check made before a shortcut goes to the registry.
pub fn precheck_shortcut(accelerator: &str, platform: Platform) -> (r: Result<(), String>)
    ensures
        looks_valid(accelerator@) ==> r is Ok,
        !looks_valid(accelerator@) ==> (r matches Err(m) && m@ == shortcut_problem_spec(
            ShortcutProblem::NeedsKey,
            accelerator@,
            platform,
        )),
{
    if shortcut_looks_valid(accelerator) {
        Ok(())
    } else {
        Err(shortcut_problem(ShortcutProblem::NeedsKey, accelerator, platform))
    }
}

/// The shortcuts to register: dictation always, and the paste shortcut only while Huck's
/// clipboard is the choice (on the normal one, Cmd+V already does the job).
pub fn shortcuts_to_bind(settings: &Settings) -> (r: (String, Option<String>))
    ensures
        r.0@ == settings.shortcut@,
        settings.clipboard is Huck ==> (r.1 matches Some(p) && p@ == settings.paste_shortcut@),
        settings.clipboard is System ==> r.1 is None,
{
    let mut d = String::new();
    push_str(&mut d, settings.shortcut.as_str());
    match settings.clipboard {
        ClipboardChoice::Huck => {
            let mut p = String::new();
            push_str(&mut p, settings.paste_shortcut.as_str());
            (d, Some(p))
        },
        ClipboardChoice::System => (d, None),
    }
}

/// What the paste shortcut pastes: what Huck's clipboard holds, unless that is nothing but
/// white space.
pub fn text_to_paste(held: Option<String>) -> (r: Option<String>)
    ensures
        match held {
            Some(t) => if is_blank(t@) {
                r is None
            } else {
                r == Some(t)
            },
            None => r is None,
        },
{
    match held {
        Some(t) => {
            let c = chars_of(t.as_str());
            if is_blank_exec(c.as_slice()) {
                None
            } else {
                Some(t)
            }
        },
        None => None,
    }
}

/// Which shortcut is being chosen.
#[derive(Debug, Clone, Copy, PartialEq, Eq, Structural)]
pub enum Rebinding {
    Dictation,
    Paste,
}

/// The shortcut a new choice must not collide with: the other one.
pub fn other_shortcut(settings: &Settings, which: Rebinding) -> (r: String)
    ensures
        which is Dictation ==> r@ == settings.paste_shortcut@,
        which is Paste ==> r@ == settings.shortcut@,
{
    let mut r = String::new();
    match which {
        Rebinding::Dictation => push_str(&mut r, settings.paste_shortcut.as_str()),
        Rebinding::Paste => push_str(&mut r, settings.shortcut.as_str()),
    }
    r
}

/// A new shortcut that is the other one, case aside, is refused before it reaches the
/// registry.
pub fn rebind_conflict(accelerator: &str, other: &str, platform: Platform) -> (r: Option<String>)
    ensures
        eq_ignore_case(accelerator@, other@) ==> (r matches Some(m) && m@ == described(
            accelerator@,
            platform,
        ) + " is Huck's other shortcut. Try another."@),
        !eq_ignore_case(accelerator@, other@) ==> r is None,
{
    let a = chars_of(accelerator);
    let o = chars_of(other);
    if eq_ignore_ascii_case(a.as_slice(), o.as_slice()) {
        let mut m = describe_shortcut(accelerator, platform);
        push_str(&mut m, " is Huck's other shortcut. Try another.");
        Some(m)
    } else {
        None
    }
}

/// The reason shown beside a refused choice, without the advice to look in Settings (the
/// user is already there).
pub fn rebind_error_text(why: &str) -> (r: String)
    ensures
        r@ == crate::text::without(why@, " Pick a different one in Settings."@),
{
    let w = chars_of(why);
    let p = chars_of(" Pick a different one in Settings.");
    let r = crate::text::without_chars(w.as_slice(), p.as_slice());
    string_of(r.as_slice())
}

/// The settings after a shortcut was chosen.
pub fn apply_rebind(settings: &mut Settings, which: Rebinding, accelerator: String)
    ensures
        which is Dictation ==> final(settings).shortcut == accelerator && final(settings).paste_shortcut
            == old(settings).paste_shortcut,
        which is Paste ==> final(settings).paste_shortcut == accelerator && final(settings).shortcut
            == old(settings).shortcut,
        final(settings).model == old(settings).model,
        final(settings).input_device == old(settings).input_device,
        final(settings).keep_drafts == old(settings).keep_drafts,
        final(settings).vocabulary == old(settings).vocabulary,
        final(settings).clipboard == old(settings).clipboard,
{
    match which {
        Rebinding::Dictation => settings.shortcut = accelerator,
        Rebinding::Paste => settings.paste_shortcut = accelerator,
    }
}

/// Both shortcuts back to the defaults on `platform`, nothing else touched.
pub fn reset_shortcuts(settings: &mut Settings, platform: Platform)
    ensures
        final(settings).shortcut@ == default_shortcut_spec(platform),
        final(settings).paste_shortcut@ == default_paste_shortcut_spec(platform),
        final(settings).model == old(settings).model,
        final(settings).input_device == old(settings).input_device,
        final(settings).keep_drafts == old(settings).keep_drafts,
        final(settings).vocabulary == old(settings).vocabulary,
        final(settings).clipboard == old(settings).clipboard,
{
    settings.shortcut = default_shortcut(platform).to_owned();
    settings.paste_shortcut = default_paste_shortcut(platform).to_owned();
}

// ---------------------------------------------------------------------------- the model

pub open spec fn loading_message_spec(model: Seq<char>) -> Seq<char> {
    "Loading "@ + model + "…"@
}

/// The engine status while a model loads.
pub fn loading_message(model: &str) -> (r: String)
    ensures
        r@ == loading_message_spec(model@),
{
    let mut m = String::new();
    push_str(&mut m, "Loading ");
    push_str(&mut m, model);
    push_str(&mut m, "…");
    m
}

// ---------------------------------------------------------------------------- updates

/// Where a check for updates stands.
#[derive(Debug, Clone, Copy, PartialEq, Eq, Structural)]
pub enum UpdateStage {
    Checking,
    Current,
    Downloading,
    Ready,
    Failed,
}

pub open spec fn stage_name(s: UpdateStage) -> Seq<char> {
    match s {
        UpdateStage::Checking => "checking"@,
        UpdateStage::Current => "current"@,
        UpdateStage::Downloading => "downloading"@,
        UpdateStage::Ready => "ready"@,
        UpdateStage::Failed => "failed"@,
    }
}

impl UpdateStage {
    /// The stage as the composer names it.
    pub fn name(&self) -> (r: &'static str)
        ensures
            r@ == stage_name(*self),
    {
        match self {
            UpdateStage::Checking => "checking",
            UpdateStage::Current => "current",
            UpdateStage::Downloading => "downloading",
            UpdateStage::Ready => "ready",
            UpdateStage::Failed => "failed",
        }
    }
}

/// What the composer shows about an update.
#[derive(Debug, Clone, PartialEq, Eq)]
pub struct UpdateView {
    pub stage: UpdateStage,
    pub title: String,
    pub detail: String,
}

/// What a new dictation starts from. It starts empty: the previous words are already in their
/// text box, or on the clipboard and in the recovery draft, and appending them would send old
/// words somewhere new.
pub struct FreshDictation {
    /// The next generation, so that a hide scheduled for an earlier dictation does nothing.
    pub generation: u64,
    pub transcript: Transcript,
    pub delivered: bool,
    pub ask_permission: bool,
    /// Whether the update line stays: only while a check or a download is under way.
    pub keep_update: bool,
    pub state: SessionState,
    pub message: String,
    pub elapsed_ms: u64,
    /// No pin yet, and no note about one.
    pub pin_note: Option<String>,
}

/// The state a dictation starts in, after the dictation numbered `generation`. The count wraps
/// at its end rather than stopping.
pub fn fresh_dictation(generation: u64, update: &Option<UpdateView>) -> (f: FreshDictation)
    ensures
        f.generation == (if generation == u64::MAX { 0 } else { generation + 1 }),
        f.transcript@.0 == Seq::<char>::empty(),
        f.transcript@.1 == Provenance::Settled,
        !f.delivered,
        !f.ask_permission,
        f.keep_update == (update matches Some(v) && (v.stage is Checking || v.stage is Downloading)),
        f.state == SessionState::Recording,
        f.message@ == "Listening…"@,
        f.elapsed_ms == 0,
        f.pin_note is None,
{
    FreshDictation {
        generation: generation.wrapping_add(1),
        transcript: Transcript::empty(),
        delivered: false,
        ask_permission: false,
        keep_update: update_busy(update),
        state: SessionState::Recording,
        message: "Listening…".to_owned(),
        elapsed_ms: 0,
        pin_note: None,
    }
}

/// A check or a download is under way: a second request only shows it again.
pub fn update_busy(view: &Option<UpdateView>) -> (r: bool)
    ensures
        r == (view matches Some(v) && (v.stage is Checking || v.stage is Downloading)),
{
    match view {
        Some(v) => matches!(v.stage, UpdateStage::Checking | UpdateStage::Downloading),
        None => false,
    }
}

fn view(stage: UpdateStage, title: String, detail: String) -> (v: UpdateView)
    ensures
        v.stage == stage && v.title == title && v.detail == detail,
{
    UpdateView { stage, title, detail }
}

pub fn checking_view() -> (v: UpdateView)
    ensures
        v.stage is Checking,
        v.title@ == "Checking for updates…"@,
        v.detail@ == "Asking GitHub."@,
{
    view(UpdateStage::Checking, "Checking for updates…".to_owned(), "Asking GitHub.".to_owned())
}

pub fn failed_view(why: String) -> (v: UpdateView)
    ensures
        v.stage is Failed,
        v.title@ == "Couldn't update"@,
        v.detail == why,
{
    view(UpdateStage::Failed, "Couldn't update".to_owned(), why)
}

/// What follows a check: the view to show, and whether to download or hide.
#[derive(Debug, Clone, PartialEq, Eq)]
pub enum UpdateNext {
    /// Show the view; nothing more.
    Stay,
    /// Show the view, then hide after this many milliseconds.
    Hide(u64),
    /// Show the view and download the offer.
    Download(crate::update::Offer),
}

pub fn after_check(result: Result<crate::update::Check, String>, current: &str) -> (r: (UpdateView, UpdateNext))
    ensures
        match result {
            Err(why) => r.0.stage is Failed && r.0.detail == why && r.1 is Stay,
            Ok(crate::update::Check::UpToDate { .. }) => r.0.stage is Current && r.0.title@
                == "You're up to date"@ && r.0.detail@ == "Version "@ + current@ + " is the latest."@
                && r.1 == UpdateNext::Hide(2600),
            Ok(crate::update::Check::Available(offer)) => r.0.stage is Downloading && r.0.title@
                == "Downloading version "@ + offer.version@ + "…"@ && r.0.detail@
                == "It is checked against its published SHA-256 before it is offered."@
                && r.1 == UpdateNext::Download(offer),
        },
{
    match result {
        Err(why) => (failed_view(why), UpdateNext::Stay),
        Ok(crate::update::Check::UpToDate { .. }) => {
            let mut d = String::new();
            push_str(&mut d, "Version ");
            push_str(&mut d, current);
            push_str(&mut d, " is the latest.");
            (view(UpdateStage::Current, "You're up to date".to_owned(), d), UpdateNext::Hide(2600))
        },
        Ok(crate::update::Check::Available(offer)) => {
            let mut t = String::new();
            push_str(&mut t, "Downloading version ");
            push_str(&mut t, offer.version.as_str());
            push_str(&mut t, "…");
            (
                view(
                    UpdateStage::Downloading,
                    t,
                    "It is checked against its published SHA-256 before it is offered.".to_owned(),
                ),
                UpdateNext::Download(offer),
            )
        },
    }
}

/// What follows a download of `version`.
pub fn after_download(result: Result<(), String>, version: &str) -> (v: UpdateView)
    ensures
        match result {
            Err(why) => v.stage is Failed && v.detail == why,
            Ok(()) => v.stage is Ready && v.title@ == "Version "@ + version@ + " is ready"@
                && v.detail@
                == "Open it, quit Huck's Voice to Text, and drag the new copy onto Applications."@,
        },
{
    match result {
        Err(why) => failed_view(why),
        Ok(()) => {
            let mut t = String::new();
            push_str(&mut t, "Version ");
            push_str(&mut t, version);
            push_str(&mut t, " is ready");
            view(
                UpdateStage::Ready,
                t,
                "Open it, quit Huck's Voice to Text, and drag the new copy onto Applications.".to_owned(),
            )
        },
    }
}

} // verus!
