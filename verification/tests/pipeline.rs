use hvtt::pipeline::{
    build_message, complete_transcription, finish_completion, paste_hint, Clipboard, Completion,
    CompletionCall,
    DeliveryError, DeliveryOutcome, Destination, Liveness,
};
use hvtt::platform::Platform;
use hvtt::transcript::Transcript;
use std::sync::Mutex;

struct FakeClipboard {
    written: Mutex<Vec<String>>,
    fail: bool,
}
impl FakeClipboard {
    fn working() -> Self {
        FakeClipboard { written: Mutex::new(vec![]), fail: false }
    }
    fn broken() -> Self {
        FakeClipboard { written: Mutex::new(vec![]), fail: true }
    }
    fn last(&self) -> Option<String> {
        self.written.lock().unwrap().last().cloned()
    }
}
impl Clipboard for FakeClipboard {
    fn set_text(&self, text: &str) -> Result<(), String> {
        if self.fail {
            return Err("clipboard unavailable".into());
        }
        self.written.lock().unwrap().push(text.to_string());
        Ok(())
    }
}

struct SpyDestination {
    liveness: Liveness,
    result: Option<DeliveryError>,
    deliver_calls: std::sync::Mutex<Vec<String>>,
}
impl SpyDestination {
    fn alive() -> Self {
        SpyDestination { liveness: Liveness::Alive, result: None, deliver_calls: Default::default() }
    }
    fn dead(reason: &str) -> Self {
        SpyDestination { liveness: Liveness::dead(reason), result: None, deliver_calls: Default::default() }
    }
    fn failing(e: DeliveryError) -> Self {
        SpyDestination { liveness: Liveness::Alive, result: Some(e), deliver_calls: Default::default() }
    }
    fn was_written_to(&self) -> bool {
        !self.deliver_calls.lock().unwrap().is_empty()
    }
}
impl Destination for SpyDestination {
    fn label(&self) -> String {
        "Slack - message box".into()
    }
    fn is_alive(&self) -> Liveness {
        self.liveness.clone()
    }
    fn deliver(&self, text: &str) -> Result<(), DeliveryError> {
        self.deliver_calls.lock().unwrap().push(text.to_string());
        match self.result.clone() {
            None => Ok(()),
            Some(e) => Err(e),
        }
    }
}

const P: Platform = Platform::MacOs;

#[test]
fn clipboard_always_gets_the_text_when_no_destination_is_pinned() {
    let clip = FakeClipboard::working();
    let r = complete_transcription(&Transcript::settled("the quick brown fox"), &clip, None::<&dyn Destination>, None, P);
    assert!(r.clipboard_ok);
    assert_eq!(clip.last().as_deref(), Some("the quick brown fox"));
    assert_eq!(r.delivery, DeliveryOutcome::NotAttempted);
}

#[test]
fn clipboard_still_gets_the_text_when_delivery_fails() {
    let clip = FakeClipboard::working();
    let dest = SpyDestination::failing(DeliveryError::DestinationLost);
    let r = complete_transcription(
        &Transcript::settled("words that must not be lost"),
        &clip,
        Some(&dest),
        None,
        P,
    );
    assert_eq!(clip.last().as_deref(), Some("words that must not be lost"));
    assert_eq!(r.text, "words that must not be lost");
    assert!(r.text_is_safe());
    assert!(r.message.contains("on the clipboard"), "got: {}", r.message);
}

#[test]
fn clipboard_gets_the_text_even_when_delivery_succeeds() {
    let clip = FakeClipboard::working();
    let dest = SpyDestination::alive();
    let r = complete_transcription(&Transcript::settled("delivered and copied"), &clip, Some(&dest), None, P);
    assert_eq!(clip.last().as_deref(), Some("delivered and copied"));
    assert!(matches!(r.delivery, DeliveryOutcome::Delivered { .. }));
}

#[test]
fn a_broken_clipboard_is_reported_and_the_text_is_still_returned() {
    let clip = FakeClipboard::broken();
    let r = complete_transcription(&Transcript::settled("still here"), &clip, None::<&dyn Destination>, None, P);
    assert!(!r.clipboard_ok);
    assert_eq!(r.text, "still here", "the transcript is never dropped");
    assert!(r.message.contains("still in the composer"), "got: {}", r.message);
}

#[test]
fn a_dead_destination_is_never_written_to() {
    let clip = FakeClipboard::working();
    let dest = SpyDestination::dead("element-detached");
    let r = complete_transcription(&Transcript::settled("do not lose these"), &clip, Some(&dest), None, P);
    assert!(!dest.was_written_to(), "deliver() must not be reached for a dead destination");
    assert!(matches!(r.delivery, DeliveryOutcome::Failed { error: DeliveryError::DestinationLost, .. }));
    assert_eq!(clip.last().as_deref(), Some("do not lose these"));
}

#[test]
fn a_look_alike_replacement_is_not_rebound_to() {
    let clip = FakeClipboard::working();
    let dest = SpyDestination::dead("replaced-by-identical-element");
    let r = complete_transcription(&Transcript::settled("private message"), &clip, Some(&dest), None, P);
    assert!(!dest.was_written_to(), "a replacement must never receive the text");
    assert!(r.message.contains("could not be reached"), "got: {}", r.message);
}

#[test]
fn an_unverified_write_is_a_failure_not_a_success() {
    let clip = FakeClipboard::working();
    let dest = SpyDestination::failing(DeliveryError::NotVerified);
    let r = complete_transcription(&Transcript::settled("did this arrive"), &clip, Some(&dest), None, P);
    assert!(matches!(r.delivery, DeliveryOutcome::Failed { error: DeliveryError::NotVerified, .. }));
    assert!(r.message.contains("could not confirm"), "got: {}", r.message);
    assert!(r.clipboard_ok);
}

#[test]
fn silence_from_a_destination_is_refusal() {
    let clip = FakeClipboard::working();
    let dest = SpyDestination::failing(DeliveryError::NoResponse);
    let r = complete_transcription(&Transcript::settled("hello"), &clip, Some(&dest), None, P);
    assert!(matches!(r.delivery, DeliveryOutcome::Failed { error: DeliveryError::NoResponse, .. }));
    assert!(r.clipboard_ok);
}

#[test]
fn a_password_box_is_refused_and_the_user_is_told_why() {
    let clip = FakeClipboard::working();
    let dest = SpyDestination::failing(DeliveryError::RefusedSecureField);
    let r = complete_transcription(&Transcript::settled("hunter two"), &clip, Some(&dest), None, P);
    assert!(r.message.contains("password box"), "got: {}", r.message);
    assert!(r.clipboard_ok);
}

#[test]
fn an_empty_transcript_is_never_delivered_anywhere() {
    let clip = FakeClipboard::working();
    let dest = SpyDestination::alive();
    let r = complete_transcription(&Transcript::empty(), &clip, Some(&dest), None, P);
    assert!(!dest.was_written_to(), "empty text must not be pushed into someone's field");
    assert_eq!(r.delivery, DeliveryOutcome::NotAttempted);
    assert!(!r.message.is_empty());
}

struct OrderingDest<'a> {
    clip: &'a FakeClipboard,
}
impl Destination for OrderingDest<'_> {
    fn label(&self) -> String {
        "ordering".into()
    }
    fn is_alive(&self) -> Liveness {
        Liveness::Alive
    }
    fn deliver(&self, _t: &str) -> Result<(), DeliveryError> {
        assert!(self.clip.last().is_some(), "clipboard must already hold the transcript before delivery runs");
        Ok(())
    }
}

#[test]
fn the_clipboard_is_written_before_delivery_is_attempted() {
    let clip = FakeClipboard::working();
    let dest = OrderingDest { clip: &clip };
    let r = complete_transcription(&Transcript::settled("order matters"), &clip, Some(&dest), None, P);
    assert!(matches!(r.delivery, DeliveryOutcome::Delivered { .. }));
}

#[test]
fn the_exact_completion_sentences() {
    let clip = FakeClipboard::working();
    let r = complete_transcription(&Transcript::settled("x"), &clip, None::<&dyn Destination>, None, Platform::MacOs);
    assert_eq!(r.message, "Copied to the clipboard. Press Cmd+V to paste it.");
    let r = complete_transcription(&Transcript::settled("x"), &clip, None::<&dyn Destination>, None, Platform::Windows);
    assert_eq!(r.message, "Copied to the clipboard. Press Ctrl+V to paste it.");
    let dest = SpyDestination::alive();
    let r = complete_transcription(&Transcript::settled("x"), &clip, Some(&dest), None, P);
    assert_eq!(r.message, "Sent to Slack - message box. Also copied to the clipboard.");
    let broken = FakeClipboard::broken();
    let r = complete_transcription(&Transcript::settled("x"), &broken, None::<&dyn Destination>, Some("/d/draft-1.txt".into()), P);
    assert_eq!(
        r.message,
        "Could not copy to the clipboard (clipboard unavailable). Your transcription is still in the composer below — copy it before closing. It is saved at /d/draft-1.txt."
    );
    assert_eq!(r.draft_path.as_deref(), Some("/d/draft-1.txt"));
    assert!(r.text_is_safe());
    assert_eq!(paste_hint(Platform::Other), "Press Ctrl+V to paste it.");
}

#[test]
fn a_dead_destination_keeps_its_reason_for_the_log() {
    let clip = FakeClipboard::working();
    let dest = SpyDestination::dead("page-navigated");
    let r = complete_transcription(&Transcript::settled("x"), &clip, Some(&dest), None, P);
    match r.delivery {
        DeliveryOutcome::Failed { label, error, detail } => {
            assert_eq!(label, "Slack - message box");
            assert_eq!(error, DeliveryError::DestinationLost);
            assert_eq!(detail.as_deref(), Some("page-navigated"));
        }
        other => panic!("unexpected {other:?}"),
    }
    let m = build_message(&DeliveryOutcome::NotAttempted, false, &None, &None, P);
    assert_eq!(
        m,
        "Could not copy to the clipboard (unknown error). Your transcription is still in the composer below — copy it before closing."
    );
}

#[test]
fn the_completion_sequence_asks_in_order_and_stops_at_a_dead_field() {
    let t = Transcript::settled("in order");
    let mut c = Completion::new(&t, true, false, P);
    assert_eq!(c.next_call(), CompletionCall::CopyText);
    assert_eq!(c.text(), "in order");
    c.copied(Ok(()));
    assert_eq!(c.next_call(), CompletionCall::CheckDestination);
    c.checked("Notes".into(), Liveness::dead("element-detached"));
    assert_eq!(c.next_call(), CompletionCall::Finish);
    let r = c.report();
    assert!(r.clipboard_ok);
    assert_eq!(
        r.delivery,
        DeliveryOutcome::Failed {
            label: "Notes".into(),
            error: DeliveryError::DestinationLost,
            detail: Some("element-detached".into()),
        }
    );
}

#[test]
fn the_completion_sequence_writes_a_live_field_once() {
    let t = Transcript::settled("once");
    let mut c = Completion::new(&t, true, true, P);
    assert_eq!(c.next_call(), CompletionCall::SaveDraft);
    c.draft_saved(Some("/d/draft.txt".into()));
    assert_eq!(c.next_call(), CompletionCall::CopyText);
    c.copied(Err("busy".into()));
    assert_eq!(c.next_call(), CompletionCall::CheckDestination);
    c.checked("Mail".into(), Liveness::Alive);
    assert_eq!(c.next_call(), CompletionCall::DeliverText);
    c.delivered(Err(DeliveryError::NotVerified));
    assert_eq!(c.next_call(), CompletionCall::Finish);
    let r = c.report();
    assert!(!r.clipboard_ok);
    assert_eq!(r.clipboard_error.as_deref(), Some("busy"));
    assert_eq!(r.draft_path.as_deref(), Some("/d/draft.txt"));
    assert_eq!(
        r.delivery,
        DeliveryOutcome::Failed { label: "Mail".into(), error: DeliveryError::NotVerified, detail: None }
    );
}

#[test]
fn the_completion_sequence_leaves_a_live_field_alone_for_blank_text() {
    let t = Transcript::empty();
    let mut c = Completion::new(&t, true, false, P);
    c.copied(Ok(()));
    c.checked("Mail".into(), Liveness::Alive);
    assert_eq!(c.next_call(), CompletionCall::Finish);
    assert_eq!(c.report().delivery, DeliveryOutcome::NotAttempted);
    let mut u = Completion::new(&Transcript::settled("x"), false, false, P);
    u.copied(Ok(()));
    assert_eq!(u.next_call(), CompletionCall::Finish);
}

#[test]
fn the_draft_is_written_before_the_clipboard_is_asked() {
    let clip = FakeClipboard::working();
    let dest = SpyDestination::alive();
    let t = Transcript::settled("drafted first");
    let mut c = Completion::new(&t, true, true, P);
    assert_eq!(c.next_call(), CompletionCall::SaveDraft);
    assert_eq!(clip.last(), None);
    c.draft_saved(Some("/d/draft-9.txt".into()));
    assert_eq!(c.next_call(), CompletionCall::CopyText);
    let r = finish_completion(c, &clip, Some(&dest));
    assert_eq!(clip.last().as_deref(), Some("drafted first"));
    assert_eq!(r.draft_path.as_deref(), Some("/d/draft-9.txt"));
    assert!(matches!(r.delivery, DeliveryOutcome::Delivered { .. }));
}
