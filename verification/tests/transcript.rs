use hvtt::transcript::{Provenance, Transcript};

#[test]
fn settled_text_is_deliverable_and_provisional_is_not() {
    assert!(Transcript::settled("hello there").is_deliverable());
    assert!(!Transcript::provisional("hello there").is_deliverable());
    assert!(!Transcript::settled("   ").is_deliverable());
}

#[test]
fn accurate_pass_replaces_provisional_draft() {
    let mut t = Transcript::provisional("helo ther");
    assert!(t.apply_recognition("hello there", Provenance::Settled));
    assert_eq!(t.text(), "hello there");
    assert!(t.is_deliverable());
}

#[test]
fn a_user_edit_is_never_overwritten_by_recognition() {
    let mut t = Transcript::provisional("helo ther");
    t.edit("Hello there, Taylor.");
    assert!(!t.apply_recognition("hello there", Provenance::Settled));
    assert_eq!(t.text(), "Hello there, Taylor.");
    assert_eq!(t.provenance(), Provenance::Edited);
}

#[test]
fn a_provisional_pass_cannot_clobber_settled_text() {
    let mut t = Transcript::settled("hello there");
    assert!(!t.apply_recognition("helo", Provenance::Provisional));
    assert_eq!(t.text(), "hello there");
}

#[test]
fn an_edit_is_deliverable() {
    let mut t = Transcript::provisional("x");
    t.edit("corrected text");
    assert!(t.is_deliverable());
}

#[test]
fn an_empty_transcript_is_settled_and_blank() {
    let t = Transcript::empty();
    assert_eq!(t.text(), "");
    assert_eq!(t.provenance(), Provenance::Settled);
    assert!(t.is_empty());
    assert!(Transcript::settled(" \t\n").is_empty());
    assert!(!Transcript::settled(" a ").is_empty());
}

#[test]
fn provisional_passes_replace_each_other_until_settled() {
    let mut t = Transcript::provisional("one");
    assert!(t.apply_recognition("two", Provenance::Provisional));
    assert_eq!(t.text(), "two");
    assert!(t.apply_recognition("three", Provenance::Settled));
    assert!(t.apply_recognition("four", Provenance::Settled));
    assert_eq!(t.text(), "four");
    assert!(!t.apply_recognition("five", Provenance::Provisional));
    assert_eq!(t.text(), "four");
}
