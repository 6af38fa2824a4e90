use hvtt::desktop::{
    after_check, after_download, after_recognition, after_recording, after_validation,
    completion_message, hide_delay, listening_message, loading_message, may_dismiss, may_rebind,
    microphone_message, other_shortcut, pick_device, pin_app_label, plan_pin, precheck_shortcut,
    rebind_conflict, refusal_notes, reset_shortcuts, settle, shortcut_problem, shortcuts_to_bind,
    should_hide, toggle_action, update_busy, AfterRecording, PinStep, Rebinding, Recognised,
    ShortcutProblem, Toggle, UpdateNext, UpdateStage, apply_rebind, checking_view, fresh_dictation,
};
use hvtt::destination::PinError;
use hvtt::engine::EngineError;
use hvtt::pipeline::{CompletionReport, DeliveryError, DeliveryOutcome};
use hvtt::platform::Platform;
use hvtt::session::SessionState;
use hvtt::settings::{ClipboardChoice, Settings};
use hvtt::update::{Check, Offer};

fn report(clipboard_ok: bool, delivery: DeliveryOutcome) -> CompletionReport {
    CompletionReport {
        text: "t".into(),
        clipboard_ok,
        clipboard_error: None,
        draft_path: None,
        delivery,
        message: "the full message".into(),
    }
}

#[test]
fn the_shortcut_stops_or_starts_unless_a_shortcut_is_being_chosen() {
    assert_eq!(toggle_action(true, true), Toggle::Ignore);
    assert_eq!(toggle_action(false, true), Toggle::Stop);
    assert_eq!(toggle_action(false, false), Toggle::Start);
}

#[test]
fn illegal_moves_leave_the_session_where_it_was() {
    assert_eq!(settle(&SessionState::Idle, SessionState::Transcribing), SessionState::Idle);
    assert_eq!(settle(&SessionState::Idle, SessionState::Recording), SessionState::Recording);
    let e = SessionState::Error { message: "m".into() };
    assert_eq!(settle(&e, SessionState::Ready), e);
    assert!(should_hide(3, 3, false));
    assert!(!should_hide(3, 4, false));
    assert!(!should_hide(3, 3, true));
    assert!(!may_dismiss(&SessionState::Transcribing));
    assert!(may_dismiss(&SessionState::Ready));
    assert!(!may_rebind(&SessionState::Recording));
    assert!(may_rebind(&SessionState::Idle));
}

#[test]
fn completion_lines_speak_of_the_chosen_clipboard() {
    let k = "Control + Option + V";
    assert_eq!(
        completion_message(&report(true, DeliveryOutcome::NotAttempted), ClipboardChoice::System, k, Platform::MacOs),
        "Copied — press ⌘V to paste."
    );
    assert_eq!(
        completion_message(&report(true, DeliveryOutcome::NotAttempted), ClipboardChoice::Huck, k, Platform::MacOs),
        "On Huck's clipboard — press Control + Option + V to paste."
    );
    let lost = DeliveryOutcome::Failed { label: "Notes".into(), error: DeliveryError::DestinationLost, detail: None };
    assert_eq!(
        completion_message(&report(true, lost), ClipboardChoice::System, k, Platform::MacOs),
        "Couldn't reach Notes — copied. Press ⌘V to paste."
    );
    let secure = DeliveryOutcome::Failed { label: "Bank".into(), error: DeliveryError::RefusedSecureField, detail: None };
    assert_eq!(
        completion_message(&report(true, secure), ClipboardChoice::Huck, k, Platform::MacOs),
        "That's a password box, so Huck left it alone — on Huck's clipboard."
    );
    let other = DeliveryOutcome::Failed { label: "Mail".into(), error: DeliveryError::NotVerified, detail: None };
    assert_eq!(
        completion_message(&report(true, other), ClipboardChoice::System, k, Platform::MacOs),
        "Couldn't type into Mail — copied. Press ⌘V to paste."
    );
    let sent = DeliveryOutcome::Delivered { label: "Mail".into() };
    assert_eq!(completion_message(&report(true, sent), ClipboardChoice::System, k, Platform::MacOs), "the full message");
    assert_eq!(
        completion_message(&report(false, DeliveryOutcome::NotAttempted), ClipboardChoice::System, k, Platform::MacOs),
        "the full message"
    );
}

#[test]
fn the_normal_clipboard_is_pasted_with_ctrl_v_off_macos() {
    let k = "Ctrl + Alt + Shift + V";
    assert_eq!(
        completion_message(&report(true, DeliveryOutcome::NotAttempted), ClipboardChoice::System, k, Platform::Windows),
        "Copied — press Ctrl + V to paste."
    );
    let lost = DeliveryOutcome::Failed { label: "Notes".into(), error: DeliveryError::DestinationLost, detail: None };
    assert_eq!(
        completion_message(&report(true, lost), ClipboardChoice::System, k, Platform::Other),
        "Couldn't reach Notes — copied. Press Ctrl + V to paste."
    );
    assert_eq!(
        completion_message(&report(true, DeliveryOutcome::NotAttempted), ClipboardChoice::Huck, k, Platform::Windows),
        "On Huck's clipboard — press Ctrl + Alt + Shift + V to paste."
    );
}

#[test]
fn the_composer_stays_while_the_words_are_only_there() {
    assert_eq!(hide_delay(false, false, false), None);
    assert_eq!(hide_delay(true, true, true), None);
    assert_eq!(hide_delay(true, false, true), Some(1200));
    assert_eq!(hide_delay(true, false, false), Some(2600));
}

#[test]
fn recordings_and_recognitions_have_their_outcomes() {
    assert_eq!(
        after_recording(100, 16_000),
        AfterRecording::TooShort { message: "That was too short to transcribe.".into(), hide_ms: 1800 }
    );
    assert_eq!(after_recording(16_000, 16_000), AfterRecording::Transcribe { message: "Transcribing…".into() });
    assert!(matches!(after_recognition(Ok("  \n".into())),
        Recognised::Nothing { ref message, hide_ms: 1800 } if message == "No speech was recognised in that recording."));
    assert!(matches!(after_recognition(Ok("  hello  ".into())), Recognised::Words(ref w) if w == "hello"));
    assert!(matches!(after_recognition(Err(EngineError::Recognition("x".into()))),
        Recognised::Failed(ref m) if m == "Recognition failed: x"));
    assert_eq!(
        microphone_message("No microphone found."),
        "No microphone found. Check microphone access in System Settings › Privacy."
    );
    assert_eq!(loading_message("ggml-base.en.bin"), "Loading ggml-base.en.bin…");
}

#[test]
fn the_preferred_microphone_is_used_when_present() {
    let names = vec![Some("Built-in".to_string()), None, Some("USB Mic".to_string()), Some("USB Mic".to_string())];
    assert_eq!(pick_device(&names, Some("USB Mic"), Some(0)), Some(2));
    assert_eq!(pick_device(&names, Some("Gone"), Some(0)), Some(0));
    assert_eq!(pick_device(&names, None, None), None);
}

#[test]
fn pins_follow_the_ways_in_order() {
    let chrome = "/Applications/Google Chrome.app/Contents/MacOS/Google Chrome";
    let slack = "/Applications/Slack.app/Contents/MacOS/Slack";
    let notes = "/System/Applications/Notes.app/Contents/MacOS/Notes";
    let p = plan_pin(chrome, true, false, false, true);
    assert_eq!(p.step, PinStep::UseBrowser);
    let p = plan_pin(notes, true, true, false, true);
    assert_eq!(p.step, PinStep::Validate);
    assert!(p.unpin_browser);
    let p = plan_pin(notes, false, false, false, true);
    assert_eq!(p.step, PinStep::Refuse(PinError::AccessibilityPermissionMissing));
    assert!(p.ask_permission);
    let p = plan_pin(notes, false, false, true, true);
    assert!(!p.ask_permission, "asked once");
    assert_eq!(plan_pin(slack, false, true, false, true).step, PinStep::UsePaste);
    assert_eq!(
        plan_pin(slack, false, true, false, false).step,
        PinStep::Refuse(PinError::Unsupported { app: "Slack".into() })
    );
    assert_eq!(plan_pin(chrome, false, true, false, true).step, PinStep::UsePaste);
    assert_eq!(after_validation(Ok(()), true), PinStep::UseAccessibility);
    assert_eq!(after_validation(Err("secure-field".into()), true), PinStep::Refuse(PinError::SecureField));
    assert_eq!(after_validation(Err("not-a-text-field:AXButton".into()), true), PinStep::UsePaste);
    assert_eq!(after_validation(Err("password-unknown".into()), false), PinStep::Refuse(PinError::NotATextField));
    assert_eq!(pin_app_label(notes), "Notes");
    assert_eq!(pin_app_label(""), "that app");
    assert_eq!(listening_message("Notes — Body"), "Listening — will send to Notes — Body");
    let (note, msg) = refusal_notes(&PinError::SecureField);
    assert_eq!(note, "That is a password field — Huck will not dictate into it.");
    assert_eq!(msg.as_deref(), Some(note.as_str()));
    assert_eq!(refusal_notes(&PinError::NotATextField).1, None);
}

#[test]
fn shortcut_problems_are_told_in_keyboard_words() {
    let p = Platform::MacOs;
    assert_eq!(
        shortcut_problem(ShortcutProblem::InUse, "Alt+Space", p),
        "Option + Space is already used by another app. Pick a different one in the H menu › Settings › Shortcuts."
    );
    assert_eq!(
        precheck_shortcut("Alt+Shift", p).unwrap_err(),
        "Option + Shift needs a normal key as well as modifiers."
    );
    assert_eq!(precheck_shortcut("Alt+K", p), Ok(()));
    assert_eq!(
        shortcut_problem(ShortcutProblem::NotUnderstood, "Ctrl+Foo", p),
        "Ctrl + FOO isn't a shortcut macOS understands."
    );
}

#[test]
fn rebinding_never_takes_the_other_shortcut() {
    let p = Platform::MacOs;
    let mut s = Settings::default_for(p);
    assert_eq!(other_shortcut(&s, Rebinding::Dictation), "Ctrl+Alt+V");
    assert_eq!(other_shortcut(&s, Rebinding::Paste), "Alt+Space");
    assert_eq!(
        rebind_conflict("ctrl+alt+v", "Ctrl+Alt+V", p).as_deref(),
        Some("Ctrl + Option + V is Huck's other shortcut. Try another.")
    );
    assert_eq!(rebind_conflict("Ctrl+K", "Ctrl+Alt+V", p), None);
    apply_rebind(&mut s, Rebinding::Dictation, "Cmd+Shift+Space".into());
    assert_eq!(s.shortcut, "Cmd+Shift+Space");
    assert_eq!(s.paste_shortcut, "Ctrl+Alt+V");
    reset_shortcuts(&mut s, p);
    assert_eq!(s, Settings::default_for(p));
    assert_eq!(shortcuts_to_bind(&s), ("Alt+Space".to_string(), None));
    s.clipboard = ClipboardChoice::Huck;
    assert_eq!(shortcuts_to_bind(&s), ("Alt+Space".to_string(), Some("Ctrl+Alt+V".to_string())));
}

#[test]
fn update_views_follow_the_check() {
    assert!(!update_busy(&None));
    let checking = checking_view();
    assert_eq!(checking.stage.name(), "checking");
    assert!(update_busy(&Some(checking)));
    let (v, next) = after_check(Ok(Check::UpToDate { latest: "0.1.0".into() }), "0.1.0");
    assert_eq!(v.stage, UpdateStage::Current);
    assert_eq!(v.title, "You're up to date");
    assert_eq!(v.detail, "Version 0.1.0 is the latest.");
    assert_eq!(next, UpdateNext::Hide(2600));
    assert!(!update_busy(&Some(v)));
    let offer = Offer { version: "0.2.0".into(), download_url: "u".into(), download_size: 1, checksum_url: "c".into() };
    let (v, next) = after_check(Ok(Check::Available(offer.clone())), "0.1.0");
    assert_eq!(v.title, "Downloading version 0.2.0…");
    assert_eq!(v.stage.name(), "downloading");
    assert_eq!(next, UpdateNext::Download(offer));
    let (v, next) = after_check(Err("Could not reach GitHub.".into()), "0.1.0");
    assert_eq!((v.stage, v.title.as_str(), v.detail.as_str()), (UpdateStage::Failed, "Couldn't update", "Could not reach GitHub."));
    assert_eq!(next, UpdateNext::Stay);
    let v = after_download(Ok(()), "0.2.0");
    assert_eq!(v.title, "Version 0.2.0 is ready");
    assert_eq!(v.stage.name(), "ready");
    assert_eq!(after_download(Err("bad".into()), "0.2.0").detail, "bad");
}

#[test]
fn a_refused_choice_drops_the_advice_to_look_in_settings() {
    assert_eq!(
        hvtt::desktop::rebind_error_text("F5 is taken. Pick a different one in Settings."),
        "F5 is taken."
    );
    let in_use = shortcut_problem(ShortcutProblem::InUse, "F5", Platform::MacOs);
    assert_eq!(hvtt::desktop::rebind_error_text(&in_use), in_use);
}

#[test]
fn a_new_dictation_starts_empty() {
    let f = fresh_dictation(4, &None);
    assert_eq!(f.generation, 5);
    assert_eq!(f.transcript.text(), "");
    assert!(!f.delivered && !f.ask_permission && !f.keep_update);
    assert_eq!(f.state, SessionState::Recording);
    assert_eq!(f.message, "Listening…");
    assert_eq!(f.elapsed_ms, 0);
    assert_eq!(f.pin_note, None);
    assert_eq!(fresh_dictation(u64::MAX, &None).generation, 0);
    let busy = Some(checking_view());
    assert!(fresh_dictation(0, &busy).keep_update);
}
