use hvtt::engine::{model_choice, segments_text, tidy, worker_threads, EngineError, TranscriptionResult};

#[test]
fn tidy_joins_whisper_segment_lines_into_one_paragraph() {
    let raw = " Hello there.\n This is a test.\n";
    assert_eq!(tidy(raw), "Hello there. This is a test.");
}

#[test]
fn tidy_drops_non_speech_annotations() {
    let raw = "[BLANK_AUDIO]\n Real words here.\n(typing)";
    assert_eq!(tidy(raw), "Real words here.");
}

#[test]
fn tidy_collapses_runs_of_whitespace() {
    assert_eq!(tidy("  too    many   spaces  "), "too many spaces");
}

#[test]
fn tidy_of_silence_is_empty_not_a_panic() {
    assert_eq!(tidy("[BLANK_AUDIO]"), "");
    assert_eq!(tidy(""), "");
}

#[test]
fn model_missing_error_tells_the_user_what_to_do() {
    let e = EngineError::ModelMissing { path: "/tmp/x.bin".into() };
    let msg = e.message();
    assert!(msg.contains("/tmp/x.bin"));
    assert!(msg.contains("fetch-model"), "must point at the fix, got: {msg}");
}

#[test]
fn every_engine_error_reads_as_a_sentence() {
    assert_eq!(
        EngineError::ModelMissing { path: "/m.bin".into() }.message(),
        "No speech model found at /m.bin. Run app/scripts/fetch-model.sh to download one."
    );
    assert_eq!(EngineError::ModelLoad("bad file".into()).message(), "Could not load the speech model: bad file");
    assert_eq!(EngineError::Recognition("oops".into()).message(), "Recognition failed: oops");
    let r = TranscriptionResult { text: "hi".into(), elapsed_ms: 12 };
    assert_eq!(r.clone(), r);
}

#[test]
fn tidy_keeps_brackets_inside_speech_and_windows_line_ends() {
    assert_eq!(tidy("[music] but words\r\n(aside) too"), "[music] but words (aside) too");
    assert_eq!(tidy("one\r\ntwo\r\n\r\n"), "one two");
    assert_eq!(tidy("[ x ]\n( y )\nz"), "z");
    assert_eq!(tidy("["), "[");
}

#[test]
fn segments_become_one_tidied_paragraph() {
    assert_eq!(
        segments_text(&[Some(" Hello there.".into()), None, Some("[BLANK_AUDIO]".into()), Some(" Bye.".into())]),
        "Hello there. Bye."
    );
    assert_eq!(segments_text(&[]), "");
    assert_eq!(worker_threads(Some(8)), 7);
    assert_eq!(worker_threads(Some(1)), 1);
    assert_eq!(worker_threads(Some(0)), 1);
    assert_eq!(worker_threads(None), 3);
    let own = Some("/m/ggml-base.en.bin".to_string());
    let bundled = Some("/app/Resources/models/ggml-base.en.bin".to_string());
    assert_eq!(model_choice(own.clone(), true, bundled.clone(), true), own);
    assert_eq!(model_choice(own.clone(), false, bundled.clone(), true), bundled);
    assert_eq!(model_choice(own.clone(), false, bundled.clone(), false), own);
    assert_eq!(model_choice(None, false, None, false), None);
}
