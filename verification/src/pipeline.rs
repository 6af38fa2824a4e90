//! Completion: what happens the moment recognition finishes.
//!
//! The order is fixed: the recovery draft is written first, then the clipboard receives the
//! text, and only then is delivery to a pinned destination attempted.
//! `Completion` decides each next call and what each answer means; the laws below state the
//! order. Nothing here clears a transcript.

use crate::platform::Platform;
use crate::text::{chars_of, is_blank, is_blank_exec, push_str};
use crate::transcript::Transcript;
use vstd::prelude::*;
use vstd::pervasive::arbitrary;

verus! {

/// The clipboard that receives every finished transcript.
pub trait Clipboard {
    fn set_text(&self, text: &str) -> Result<(), String>;
}

/// Whether a pinned destination is still unquestionably the one that was pinned.
#[derive(Debug, Clone, PartialEq, Eq)]
pub enum Liveness {
    /// The pinned target, still reachable.
    Alive,
    /// Gone, or no longer provably the same thing. `reason` is for the log, not the user.
    Dead { reason: String },
}

impl Liveness {
    pub fn dead(reason: &str) -> (l: Self)
        ensures
            l matches Liveness::Dead { reason: r } && r@ == reason@,
    {
        let mut r = String::new();
        push_str(&mut r, reason);
        Liveness::Dead { reason: r }
    }

    pub fn is_alive(&self) -> (r: bool)
        ensures
            r == (*self is Alive),
    {
        matches!(self, Liveness::Alive)
    }
}

/// A pinned text destination in another application.
///
/// Liveness gates everything: `complete_transcription` asks `is_alive` before it will call
/// `deliver`, and never hands `deliver` a blank text. `deliver` must verify by reading back.
pub trait Destination: Send + Sync {
    /// A short human label for the indicator, e.g. `"Slack — message box"`.
    fn label(&self) -> String;

    /// Is the pinned target still the one that was pinned? Checked before every delivery.
    fn is_alive(&self) -> Liveness;

    /// Write the text and confirm it landed. Only called on a destination that has just
    /// answered the liveness check `Alive`, and never with blank text.
    fn deliver(&self, text: &str) -> Result<(), DeliveryError>
        requires
            call_ensures(Self::is_alive, (self,), Liveness::Alive),
            !is_blank(text@),
    ;
}

#[derive(Debug, Clone, PartialEq, Eq)]
pub enum DeliveryError {
    /// The field is gone, or its reference went stale.
    DestinationLost,
    /// Refused on purpose: never dictate into a password box.
    RefusedSecureField,
    /// A silent write was not available and taking the foreground is never acceptable.
    WouldStealForeground,
    /// The write reported success but the text could not be read back.
    NotVerified,
    /// The destination did not answer. Silence is refusal.
    NoResponse,
    Other(String),
}

#[derive(Debug, Clone, PartialEq, Eq)]
pub enum DeliveryOutcome {
    /// No destination was pinned, or there was nothing to send. Not a failure.
    NotAttempted,
    Delivered { label: String },
    Failed {
        label: String,
        error: DeliveryError,
        /// Diagnostic detail for the log. Never shown to the user verbatim.
        detail: Option<String>,
    },
}

#[derive(Debug, Clone, PartialEq, Eq)]
pub struct CompletionReport {
    /// The text as it stands. Always present, whatever else happened.
    pub text: String,
    /// Whether the clipboard now holds the transcript.
    pub clipboard_ok: bool,
    /// Set only if the clipboard write itself failed.
    pub clipboard_error: Option<String>,
    /// Where the recovery draft was written, if it could be written.
    pub draft_path: Option<String>,
    pub delivery: DeliveryOutcome,
    /// The sentence to show the user. Never blank.
    pub message: String,
}

impl CompletionReport {
    /// True when the words are safe somewhere other than the composer.
    pub fn text_is_safe(&self) -> (r: bool)
        ensures
            r == (self.clipboard_ok || self.draft_path is Some),
    {
        self.clipboard_ok || self.draft_path.is_some()
    }
}

pub open spec fn paste_hint_spec(platform: Platform) -> Seq<char> {
    if platform is MacOs {
        "Press Cmd+V to paste it."@
    } else {
        "Press Ctrl+V to paste it."@
    }
}

pub fn paste_hint(platform: Platform) -> (r: &'static str)
    ensures
        r@ == paste_hint_spec(platform),
{
    if platform.is_macos() {
        "Press Cmd+V to paste it."
    } else {
        "Press Ctrl+V to paste it."
    }
}

/// Why a delivery failed, in one plain sentence.
pub open spec fn failure_reason(error: DeliveryError) -> Seq<char> {
    match error {
        DeliveryError::DestinationLost => "The linked text field could not be reached."@,
        DeliveryError::RefusedSecureField => "That field is a password box, so Huck refused to type into it."@,
        DeliveryError::WouldStealForeground => "The linked text field needs to be in front to receive text, and Huck will not pull you out of what you are doing."@,
        DeliveryError::NotVerified => "Huck could not confirm the text arrived, so it is not claiming it did."@,
        DeliveryError::NoResponse => "The linked text field did not respond."@,
        DeliveryError::Other(_) => "The linked text field could not be reached."@,
    }
}

/// The sentence shown after completion. A failed clipboard outranks whatever delivery did,
/// since it is the one case where the words might be hard to reach.
pub open spec fn message_spec(
    delivery: DeliveryOutcome,
    clipboard_ok: bool,
    clipboard_error: Option<String>,
    draft_path: Option<String>,
    platform: Platform,
) -> Seq<char> {
    if !clipboard_ok {
        let why = match clipboard_error {
            Some(e) => e@,
            None => "unknown error"@,
        };
        let where_it_is = match draft_path {
            Some(p) => " It is saved at "@ + p@ + "."@,
            None => Seq::empty(),
        };
        "Could not copy to the clipboard ("@ + why
            + "). Your transcription is still in the composer below — copy it before closing."@
            + where_it_is
    } else {
        match delivery {
            DeliveryOutcome::NotAttempted => "Copied to the clipboard. "@ + paste_hint_spec(
                platform,
            ),
            DeliveryOutcome::Delivered { label } => "Sent to "@ + label@
                + ". Also copied to the clipboard."@,
            DeliveryOutcome::Failed { error, .. } => failure_reason(error)
                + " Your transcription is on the clipboard. "@ + paste_hint_spec(platform),
        }
    }
}

fn failure_reason_text(error: &DeliveryError) -> (r: &'static str)
    ensures
        r@ == failure_reason(*error),
{
    match error {
        DeliveryError::DestinationLost => "The linked text field could not be reached.",
        DeliveryError::RefusedSecureField => "That field is a password box, so Huck refused to type into it.",
        DeliveryError::WouldStealForeground => "The linked text field needs to be in front to receive text, and Huck will not pull you out of what you are doing.",
        DeliveryError::NotVerified => "Huck could not confirm the text arrived, so it is not claiming it did.",
        DeliveryError::NoResponse => "The linked text field did not respond.",
        DeliveryError::Other(_) => "The linked text field could not be reached.",
    }
}

/// The sentence for a completion, as `message_spec` gives it.
pub fn build_message(
    delivery: &DeliveryOutcome,
    clipboard_ok: bool,
    clipboard_error: &Option<String>,
    draft_path: &Option<String>,
    platform: Platform,
) -> (m: String)
    ensures
        m@ == message_spec(*delivery, clipboard_ok, *clipboard_error, *draft_path, platform),
{
    let mut m = String::new();
    if !clipboard_ok {
        push_str(&mut m, "Could not copy to the clipboard (");
        match clipboard_error {
            Some(e) => push_str(&mut m, e.as_str()),
            None => push_str(&mut m, "unknown error"),
        }
        push_str(
            &mut m,
            "). Your transcription is still in the composer below — copy it before closing.",
        );
        match draft_path {
            Some(p) => {
                push_str(&mut m, " It is saved at ");
                push_str(&mut m, p.as_str());
                push_str(&mut m, ".");
            },
            None => {},
        }
        return m;
    }
    match delivery {
        DeliveryOutcome::NotAttempted => {
            push_str(&mut m, "Copied to the clipboard. ");
            push_str(&mut m, paste_hint(platform));
        },
        DeliveryOutcome::Delivered { label } => {
            push_str(&mut m, "Sent to ");
            push_str(&mut m, label.as_str());
            push_str(&mut m, ". Also copied to the clipboard.");
        },
        DeliveryOutcome::Failed { error, .. } => {
            push_str(&mut m, failure_reason_text(error));
            push_str(&mut m, " Your transcription is on the clipboard. ");
            push_str(&mut m, paste_hint(platform));
        },
    }
    m
}

/// What the delivery outcome can be, given whether a destination was pinned and whether the
/// text is blank. Blank text is never delivered, a missing pin is never a failure, and a
/// diagnostic detail comes only with a lost destination.
pub open spec fn delivery_consistent(d: DeliveryOutcome, pinned: bool, blank: bool) -> bool {
    match d {
        DeliveryOutcome::NotAttempted => !pinned || blank,
        DeliveryOutcome::Delivered { .. } => pinned && !blank,
        DeliveryOutcome::Failed { error, detail, .. } => pinned && (detail is Some
            ==> error is DestinationLost) && (detail is None ==> !blank),
    }
}

/// The outcome once the liveness check has let a delivery through and `deliver` has answered.
pub open spec fn delivered_outcome_of(label: String, result: Result<(), DeliveryError>) -> DeliveryOutcome {
    match result {
        Ok(()) => DeliveryOutcome::Delivered { label },
        Err(error) => DeliveryOutcome::Failed { label, error, detail: None },
    }
}

pub fn delivered_outcome(label: String, result: Result<(), DeliveryError>) -> (d: DeliveryOutcome)
    ensures
        d == delivered_outcome_of(label, result),
{
    match result {
        Ok(()) => DeliveryOutcome::Delivered { label },
        Err(error) => DeliveryOutcome::Failed { label, error, detail: None },
    }
}

/// The outcome when the liveness check refuses: the destination is dead, and `reason` says why.
pub fn lost_outcome(label: String, reason: String) -> (d: DeliveryOutcome)
    ensures
        d == (DeliveryOutcome::Failed {
            label,
            error: DeliveryError::DestinationLost,
            detail: Some(reason),
        }),
{
    DeliveryOutcome::Failed { label, error: DeliveryError::DestinationLost, detail: Some(reason) }
}

/// The call a completion in progress needs made next.
#[derive(Debug, Clone, Copy, PartialEq, Eq, Structural)]
pub enum CompletionCall {
    /// Write the recovery draft.
    SaveDraft,
    /// Put the text on the clipboard.
    CopyText,
    /// Read the pinned destination's label, then ask whether it is still alive.
    CheckDestination,
    /// Write the text into the pinned destination.
    DeliverText,
    /// Nothing more to ask: the report is ready.
    Finish,
}

/// A completion in progress, as the answers received so far.
pub struct CompletionView {
    pub text: Seq<char>,
    pub pinned: bool,
    /// Whether a recovery draft is to be written.
    pub keep_draft: bool,
    /// Whether the draft step has answered.
    pub draft_answered: bool,
    /// Where the draft was written, once the draft step has answered.
    pub draft_path: Option<String>,
    pub platform: Platform,
    /// The clipboard's answer, once it has been asked.
    pub clipboard: Option<Result<(), String>>,
    /// The label of a live destination that is waiting for the text.
    pub label: Option<String>,
    /// The delivery outcome, once it is decided.
    pub delivery: Option<DeliveryOutcome>,
}

/// A completion that has asked nothing yet.
pub open spec fn started(
    text: Seq<char>,
    pinned: bool,
    keep_draft: bool,
    platform: Platform,
) -> CompletionView {
    CompletionView {
        text,
        pinned,
        keep_draft,
        draft_answered: false,
        draft_path: None,
        platform,
        clipboard: None,
        label: None,
        delivery: None,
    }
}

/// The draft is written first, when one is kept; the clipboard is asked next; a destination is
/// checked only once the clipboard has answered, and written only once it has been found alive
/// with text to send.
pub open spec fn next_call_of(v: CompletionView) -> CompletionCall {
    if v.keep_draft && !v.draft_answered {
        CompletionCall::SaveDraft
    } else if v.clipboard is None {
        CompletionCall::CopyText
    } else if v.delivery is Some || !v.pinned {
        CompletionCall::Finish
    } else if v.label is None {
        CompletionCall::CheckDestination
    } else {
        CompletionCall::DeliverText
    }
}

/// After the draft step has answered with where the draft went (`None`: nowhere).
pub open spec fn after_draft(v: CompletionView, path: Option<String>) -> CompletionView {
    CompletionView { draft_answered: true, draft_path: path, ..v }
}

/// After the clipboard has answered `answer`.
pub open spec fn after_copy(v: CompletionView, answer: Result<(), String>) -> CompletionView {
    CompletionView { clipboard: Some(answer), ..v }
}

/// After the destination has given its label and answered the liveness check. A dead one ends
/// the sequence as lost; a live one with blank text ends it with nothing attempted; a live one
/// with text waits for the text.
pub open spec fn after_check(v: CompletionView, label: String, live: Liveness) -> CompletionView {
    match live {
        Liveness::Dead { reason } => CompletionView {
            delivery: Some(
                DeliveryOutcome::Failed {
                    label,
                    error: DeliveryError::DestinationLost,
                    detail: Some(reason),
                },
            ),
            ..v
        },
        Liveness::Alive => if is_blank(v.text) {
            CompletionView { delivery: Some(DeliveryOutcome::NotAttempted), ..v }
        } else {
            CompletionView { label: Some(label), ..v }
        },
    }
}

/// After the destination has answered the write with `result`.
pub open spec fn after_delivery(v: CompletionView, result: Result<(), DeliveryError>) -> CompletionView {
    CompletionView { delivery: Some(delivered_outcome_of(v.label.unwrap(), result)), ..v }
}

/// The rest of the sequence from the clipboard on, given what each call would answer; answers
/// to calls that are never made are ignored.
pub open spec fn run_completion(
    start: CompletionView,
    copy: Result<(), String>,
    label: String,
    live: Liveness,
    result: Result<(), DeliveryError>,
) -> CompletionView {
    let copied = after_copy(start, copy);
    if !(next_call_of(copied) is CheckDestination) {
        copied
    } else {
        let checked = after_check(copied, label, live);
        if !(next_call_of(checked) is DeliverText) {
            checked
        } else {
            after_delivery(checked, result)
        }
    }
}

pub open spec fn outcome_of(v: CompletionView) -> DeliveryOutcome {
    match v.delivery {
        Some(d) => d,
        None => DeliveryOutcome::NotAttempted,
    }
}

pub open spec fn clipboard_ok_of(v: CompletionView) -> bool {
    v.clipboard matches Some(Ok(_))
}

pub open spec fn clipboard_error_of(v: CompletionView) -> Option<String> {
    match v.clipboard {
        Some(Err(e)) => Some(e),
        _ => None,
    }
}

/// `r` is the report of the finished completion `v`.
pub open spec fn reports(r: CompletionReport, v: CompletionView) -> bool {
    &&& r.text@ == v.text
    &&& r.clipboard_ok == clipboard_ok_of(v)
    &&& r.clipboard_error == clipboard_error_of(v)
    &&& r.draft_path == v.draft_path
    &&& r.delivery == outcome_of(v)
    &&& r.message@ == message_spec(
        r.delivery,
        r.clipboard_ok,
        r.clipboard_error,
        r.draft_path,
        v.platform,
    )
}

/// `a` is an answer that `clipboard.set_text` can give when handed `text`.
pub open spec fn copy_answered<C: Clipboard + ?Sized>(
    clipboard: &C,
    text: Seq<char>,
    a: Result<(), String>,
) -> bool {
    exists|s: &str| s@ == text && #[trigger] call_ensures(C::set_text, (clipboard, s), a)
}

/// `label` is an answer that `destination.label()` can give.
pub open spec fn label_answered<D: Destination + ?Sized>(destination: &D, label: String) -> bool {
    call_ensures(D::label, (destination,), label)
}

/// `live` is an answer that `destination.is_alive()` can give.
pub open spec fn live_answered<D: Destination + ?Sized>(destination: &D, live: Liveness) -> bool {
    call_ensures(D::is_alive, (destination,), live)
}

/// `result` is an answer that `destination.deliver` can give when handed `text`.
pub open spec fn written_answered<D: Destination + ?Sized>(
    destination: &D,
    text: Seq<char>,
    result: Result<(), DeliveryError>,
) -> bool {
    exists|s: &str| s@ == text && #[trigger] call_ensures(D::deliver, (destination, s), result)
}

/// The destination's answers, where it was asked: its label and liveness once the clipboard has
/// answered, and the write of `text` when it was alive and the text not blank.
pub open spec fn destination_answered<D: Destination + ?Sized>(
    destination: Option<&D>,
    text: Seq<char>,
    label: String,
    live: Liveness,
    result: Result<(), DeliveryError>,
) -> bool {
    match destination {
        None => true,
        Some(d) => {
            &&& label_answered(d, label)
            &&& live_answered(d, live)
            &&& (live is Alive && !is_blank(text)) ==> written_answered(d, text, result)
        },
    }
}

/// The completion sequence in progress. It decides which call comes next and what each answer
/// means; whoever drives it makes the calls.
pub struct Completion {
    text: String,
    pinned: bool,
    keep_draft: bool,
    draft_answered: bool,
    draft_path: Option<String>,
    platform: Platform,
    clipboard: Option<Result<(), String>>,
    label: Option<String>,
    delivery: Option<DeliveryOutcome>,
}

impl View for Completion {
    type V = CompletionView;

    closed spec fn view(&self) -> CompletionView {
        CompletionView {
            text: self.text@,
            pinned: self.pinned,
            keep_draft: self.keep_draft,
            draft_answered: self.draft_answered,
            draft_path: self.draft_path,
            platform: self.platform,
            clipboard: self.clipboard,
            label: self.label,
            delivery: self.delivery,
        }
    }
}

impl Completion {
    /// Nothing about the destination is known before the clipboard has answered.
    #[verifier::type_invariant]
    spec fn nothing_before_clipboard(self) -> bool {
        self.clipboard is None ==> self.label is None && self.delivery is None
    }

    /// Whether the sequence is at its clipboard step with nothing about the destination known.
    pub closed spec fn at_clipboard(self) -> bool {
        next_call_of(self@) is CopyText && self@.label is None && self@.delivery is None
    }

    /// A completion of `transcript` that has asked nothing yet. `pinned` says whether a
    /// destination is pinned, `keep_draft` whether a recovery draft is to be written.
    pub fn new(transcript: &Transcript, pinned: bool, keep_draft: bool, platform: Platform) -> (c:
        Self)
        ensures
            c@ == started(transcript@.0, pinned, keep_draft, platform),
    {
        let mut text = String::new();
        push_str(&mut text, transcript.text());
        Completion {
            text,
            pinned,
            keep_draft,
            draft_answered: false,
            draft_path: None,
            platform,
            clipboard: None,
            label: None,
            delivery: None,
        }
    }

    /// The text that goes to the draft, the clipboard and the destination.
    pub fn text(&self) -> (r: &str)
        ensures
            r@ == self@.text,
    {
        self.text.as_str()
    }

    pub fn next_call(&self) -> (k: CompletionCall)
        ensures
            k == next_call_of(self@),
            k is CopyText ==> self.at_clipboard(),
    {
        proof {
            use_type_invariant(self);
        }
        if self.keep_draft && !self.draft_answered {
            CompletionCall::SaveDraft
        } else if self.clipboard.is_none() {
            CompletionCall::CopyText
        } else if self.delivery.is_some() || !self.pinned {
            CompletionCall::Finish
        } else if self.label.is_none() {
            CompletionCall::CheckDestination
        } else {
            CompletionCall::DeliverText
        }
    }

    /// The draft step answered: the draft is at `path`, or was not written (`None`).
    pub fn draft_saved(&mut self, path: Option<String>)
        requires
            next_call_of(old(self)@) is SaveDraft,
        ensures
            final(self)@ == after_draft(old(self)@, path),
    {
        proof {
            use_type_invariant(&*self);
        }
        self.draft_answered = true;
        self.draft_path = path;
    }

    /// The clipboard answered `answer`.
    pub fn copied(&mut self, answer: Result<(), String>)
        requires
            next_call_of(old(self)@) is CopyText,
        ensures
            final(self)@ == after_copy(old(self)@, answer),
    {
        self.clipboard = Some(answer);
    }

    /// The pinned destination gave `label` and answered the liveness check with `live`.
    pub fn checked(&mut self, label: String, live: Liveness)
        requires
            next_call_of(old(self)@) is CheckDestination,
        ensures
            final(self)@ == after_check(old(self)@, label, live),
    {
        match live {
            Liveness::Dead { reason } => {
                self.delivery = Some(lost_outcome(label, reason));
            },
            Liveness::Alive => {
                let v = chars_of(self.text.as_str());
                if is_blank_exec(v.as_slice()) {
                    self.delivery = Some(DeliveryOutcome::NotAttempted);
                } else {
                    self.label = Some(label);
                }
            },
        }
    }

    /// The destination answered the write with `result`.
    pub fn delivered(&mut self, result: Result<(), DeliveryError>)
        requires
            next_call_of(old(self)@) is DeliverText,
        ensures
            final(self)@ == after_delivery(old(self)@, result),
    {
        let label = match &self.label {
            Some(l) => l.clone(),
            None => String::new(),
        };
        self.delivery = Some(delivered_outcome(label, result));
    }

    /// The report of a finished completion.
    pub fn report(self) -> (r: CompletionReport)
        requires
            next_call_of(self@) is Finish,
        ensures
            reports(r, self@),
            r.clipboard_ok <==> r.clipboard_error is None,
    {
        let (clipboard_ok, clipboard_error) = match self.clipboard {
            Some(Ok(())) => (true, None),
            Some(Err(e)) => (false, Some(e)),
            None => (false, None),
        };
        let delivery = match self.delivery {
            Some(d) => d,
            None => DeliveryOutcome::NotAttempted,
        };
        let message = build_message(
            &delivery,
            clipboard_ok,
            &clipboard_error,
            &self.draft_path,
            self.platform,
        );
        CompletionReport {
            text: self.text,
            clipboard_ok,
            clipboard_error,
            draft_path: self.draft_path,
            delivery,
            message,
        }
    }
}

/// Run a completion from its clipboard step to the end: the clipboard receives the text
/// unconditionally, then a pinned destination is checked, and written only when alive and the
/// text is not blank. Each answer the report rests on is one the call could give: the clipboard
/// and the write were handed the completion's own text.
pub fn finish_completion<C: Clipboard + ?Sized, D: Destination + ?Sized>(
    completion: Completion,
    clipboard: &C,
    destination: Option<&D>,
) -> (r: CompletionReport)
    requires
        completion.at_clipboard(),
        completion@.pinned == (destination is Some),
    ensures
        exists|
            copy: Result<(), String>,
            label: String,
            live: Liveness,
            result: Result<(), DeliveryError>,
        |
            #[trigger] reports(r, run_completion(completion@, copy, label, live, result))
                && copy_answered(clipboard, completion@.text, copy) && destination_answered(
                destination,
                completion@.text,
                label,
                live,
                result,
            ),
        r.clipboard_ok <==> r.clipboard_error is None,
{
    let ghost start = completion@;
    let mut c = completion;

    // The clipboard, before any delivery can fail.
    let t = c.text();
    let copy = clipboard.set_text(t);
    let ghost g_copy = copy;
    proof {
        assert(call_ensures(C::set_text, (clipboard, t), g_copy));
    }
    c.copied(copy);

    let ghost mut g_label: String = arbitrary();
    let ghost mut g_live: Liveness = Liveness::Alive;
    let ghost mut g_result: Result<(), DeliveryError> = Ok(());

    // Only now, delivery: liveness first, and blank text never goes anywhere.
    match destination {
        None => {},
        Some(d) => {
            if c.next_call() == CompletionCall::CheckDestination {
                let label = d.label();
                let live = d.is_alive();
                proof {
                    g_label = label;
                    g_live = live;
                }
                c.checked(label, live);
                if c.next_call() == CompletionCall::DeliverText {
                    let w = c.text();
                    let result = d.deliver(w);
                    proof {
                        g_result = result;
                        assert(call_ensures(D::deliver, (d, w), g_result));
                    }
                    c.delivered(result);
                }
            }
        },
    }
    let r = c.report();
    proof {
        assert(reports(r, run_completion(start, g_copy, g_label, g_live, g_result)));
    }
    r
}

/// Run the completion sequence once the recovery draft is written (at `draft_path`, or not at
/// all): clipboard first, unconditionally, then delivery through the liveness check.
///
/// The report is that of the sequence `run_completion` describes, with the clipboard's,
/// the destination's and the write's answers each one the call could give, and the transcript's
/// own text handed to the clipboard and to the write. A pinned destination can never cause the
/// clipboard copy to be skipped, a dead one is never written to, and blank text is never sent
/// anywhere.
pub fn complete_transcription<C: Clipboard + ?Sized, D: Destination + ?Sized>(
    transcript: &Transcript,
    clipboard: &C,
    destination: Option<&D>,
    draft_path: Option<String>,
    platform: Platform,
) -> (r: CompletionReport)
    ensures
        r.text@ == transcript@.0,
        r.draft_path == draft_path,
        r.clipboard_ok <==> r.clipboard_error is None,
        r.message@ == message_spec(
            r.delivery,
            r.clipboard_ok,
            r.clipboard_error,
            r.draft_path,
            platform,
        ),
        delivery_consistent(r.delivery, destination is Some, is_blank(transcript@.0)),
        exists|
            copy: Result<(), String>,
            label: String,
            live: Liveness,
            result: Result<(), DeliveryError>,
        |
            #[trigger] reports(
                r,
                run_completion(
                    after_draft(
                        started(transcript@.0, destination is Some, true, platform),
                        draft_path,
                    ),
                    copy,
                    label,
                    live,
                    result,
                ),
            ) && copy_answered(clipboard, transcript@.0, copy) && destination_answered(
                destination,
                transcript@.0,
                label,
                live,
                result,
            ),
{
    let mut c = Completion::new(transcript, destination.is_some(), true, platform);
    c.draft_saved(draft_path);
    proof {
        use_type_invariant(&c);
    }
    finish_completion(c, clipboard, destination)
}

/// A completion that keeps a draft writes it first; the clipboard is asked next, and first of
/// all when no draft is kept.
pub proof fn law_draft_then_clipboard(
    text: Seq<char>,
    pinned: bool,
    keep_draft: bool,
    platform: Platform,
    path: Option<String>,
)
    ensures
        keep_draft ==> next_call_of(started(text, pinned, keep_draft, platform)) is SaveDraft,
        keep_draft ==> next_call_of(after_draft(started(text, pinned, keep_draft, platform), path))
            is CopyText,
        !keep_draft ==> next_call_of(started(text, pinned, keep_draft, platform)) is CopyText,
{
}

/// A destination is checked or written only after the draft step and the clipboard have
/// answered, and never when none is pinned.
pub proof fn law_destination_only_after_clipboard(v: CompletionView)
    ensures
        (next_call_of(v) is CheckDestination || next_call_of(v) is DeliverText) ==> v.clipboard
            is Some && v.pinned && (!v.keep_draft || v.draft_answered),
{
}

/// A destination found dead is never written to: the sequence ends there, reporting it lost
/// with the reason it gave.
pub proof fn law_dead_destination_never_written(v: CompletionView, label: String, reason: String)
    requires
        next_call_of(v) is CheckDestination,
    ensures
        next_call_of(after_check(v, label, Liveness::Dead { reason })) is Finish,
        outcome_of(after_check(v, label, Liveness::Dead { reason })) == (DeliveryOutcome::Failed {
            label,
            error: DeliveryError::DestinationLost,
            detail: Some(reason),
        }),
{
}

/// After the check, the text is written exactly when the destination is alive and the text is
/// not blank; a live destination with blank text is left alone and nothing is attempted.
pub proof fn law_written_only_when_alive_with_text(v: CompletionView, label: String, live: Liveness)
    requires
        next_call_of(v) is CheckDestination,
    ensures
        next_call_of(after_check(v, label, live)) is DeliverText <==> (live is Alive && !is_blank(
            v.text,
        )),
        (live is Alive && is_blank(v.text)) ==> outcome_of(after_check(v, label, live))
            is NotAttempted,
{
}

/// The text is written at most once, and the outcome is what the write answered.
pub proof fn law_written_at_most_once(v: CompletionView, result: Result<(), DeliveryError>)
    requires
        next_call_of(v) is DeliverText,
    ensures
        next_call_of(after_delivery(v, result)) is Finish,
        outcome_of(after_delivery(v, result)) == delivered_outcome_of(v.label.unwrap(), result),
{
}

/// The message shown after completion is never blank.
pub proof fn law_message_never_blank(
    delivery: DeliveryOutcome,
    clipboard_ok: bool,
    clipboard_error: Option<String>,
    draft_path: Option<String>,
    platform: Platform,
)
    ensures
        message_spec(delivery, clipboard_ok, clipboard_error, draft_path, platform).len() > 0,
{
    let m = message_spec(delivery, clipboard_ok, clipboard_error, draft_path, platform);
    if !clipboard_ok {
        reveal_strlit("Could not copy to the clipboard (");
    } else {
        match delivery {
            DeliveryOutcome::NotAttempted => {
                reveal_strlit("Copied to the clipboard. ");
            },
            DeliveryOutcome::Delivered { label } => {
                reveal_strlit("Sent to ");
            },
            DeliveryOutcome::Failed { .. } => {
                reveal_strlit(" Your transcription is on the clipboard. ");
            },
        }
    }
}

/// Without a pinned destination nothing is attempted, and blank text is never delivered.
pub proof fn law_no_pin_no_delivery(d: DeliveryOutcome, pinned: bool, blank: bool)
    requires
        delivery_consistent(d, pinned, blank),
    ensures
        !pinned ==> d is NotAttempted,
        blank ==> !(d is Delivered),
{
}

} // verus!
