use hvtt::audio::{is_long_enough, WHISPER_SAMPLE_RATE};

#[test]
fn a_tap_of_the_hotkey_is_rejected_as_too_short() {
    assert!(!is_long_enough(1000, WHISPER_SAMPLE_RATE));
    assert!(is_long_enough(16_000, WHISPER_SAMPLE_RATE));
}

#[test]
fn a_quarter_second_is_exactly_long_enough() {
    assert!(is_long_enough(4000, WHISPER_SAMPLE_RATE));
    assert!(!is_long_enough(3999, WHISPER_SAMPLE_RATE));
    assert!(!is_long_enough(100_000, 0));
}
