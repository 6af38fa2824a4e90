use hvtt::drafts::{draft_file_name, is_draft_file, recent_order, to_prune, worth_saving, DraftStore, DEFAULT_KEEP};
use hvtt::platform::Platform;

#[test]
fn drafts_are_named_by_their_time() {
    assert_eq!(draft_file_name(1700000000123), "draft-1700000000123.txt");
    assert_eq!(draft_file_name(0), "draft-0.txt");
    assert!(is_draft_file("draft-5.txt"));
    assert!(!is_draft_file(".txt"));
    assert!(!is_draft_file("notes.md"));
    assert!(!is_draft_file("txt"));
}

#[test]
fn an_empty_transcript_is_not_worth_a_file() {
    assert!(!worth_saving("   "));
    assert!(!worth_saving(""));
    assert!(worth_saving(" words "));
}

#[test]
fn the_most_recent_draft_comes_first() {
    let names = vec![
        "draft-100.txt".to_string(),
        "notes.md".to_string(),
        "draft-300.txt".to_string(),
        "draft-200.txt".to_string(),
        "draft-300.txt".to_string(),
    ];
    assert_eq!(
        recent_order(names),
        vec!["draft-300.txt", "draft-300.txt", "draft-200.txt", "draft-100.txt"]
    );
    assert!(recent_order(vec![]).is_empty());
}

#[test]
fn drafts_past_the_cap_are_pruned() {
    let recent: Vec<String> = ["d-5.txt", "d-4.txt", "d-3.txt", "d-2.txt"].iter().map(|s| s.to_string()).collect();
    assert_eq!(to_prune(&recent, 3), vec!["d-2.txt"]);
    assert_eq!(to_prune(&recent, 4), Vec::<String>::new());
    assert_eq!(to_prune(&recent, 0), recent);
}

#[test]
fn a_store_keeps_its_folder_and_cap() {
    let s = DraftStore::new("/tmp/drafts", 5);
    assert_eq!(s.dir(), "/tmp/drafts");
    assert_eq!(s.keep(), 5);
    let d = DraftStore::at_default_location(Platform::Other).expect("a home directory should exist");
    assert!(d.dir().ends_with("drafts"));
    assert_eq!(d.keep(), DEFAULT_KEEP);
}

#[test]
fn the_default_store_lives_in_the_program_folder() {
    assert!(DraftStore::from_local_dir(None, Platform::Other).is_none());
    let s = DraftStore::from_local_dir(Some("/home/u/.local/share".into()), Platform::Other).unwrap();
    assert_eq!(s.dir(), "/home/u/.local/share/Huck's Voice to Text/drafts");
    assert_eq!(s.keep(), DEFAULT_KEEP);
    let m = DraftStore::from_local_dir(Some("/Users/u/Library/Application Support".into()), Platform::MacOs).unwrap();
    assert_eq!(m.dir(), "/Users/u/Library/Application Support/com.huck.voice-to-text/drafts");
}
