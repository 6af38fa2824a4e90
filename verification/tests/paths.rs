use hvtt::paths::{app_dir, data_dir, data_dir_under, drafts_dir, entry_under, models_dir, settings_path};
use hvtt::platform::Platform;
use std::path::Path;

const P: Platform = Platform::Other;

#[test]
fn data_dir_is_absolute_and_not_on_the_project_drive() {
    let d = data_dir(P).expect("a home directory should exist");
    assert!(Path::new(&d).is_absolute());
    assert!(!d.contains("Project Playground"), "app data must never resolve into the hub: {d}");
}

#[test]
fn everything_lives_under_one_folder() {
    let d = data_dir(P).unwrap();
    assert!(Path::new(&models_dir(P).unwrap()).starts_with(&d));
    assert!(Path::new(&drafts_dir(P).unwrap()).starts_with(&d));
    assert!(Path::new(&settings_path(P).unwrap()).starts_with(&d));
}

#[test]
fn the_folder_is_named_for_the_platform() {
    assert_eq!(app_dir(Platform::MacOs), "com.huck.voice-to-text");
    assert_eq!(app_dir(Platform::Windows), "Huck's Voice to Text");
    assert_eq!(data_dir_under("/home/h/.local/share", Platform::MacOs), "/home/h/.local/share/com.huck.voice-to-text");
    assert_eq!(entry_under("/x/y/", "models"), "/x/y/models");
    assert!(data_dir(P).unwrap().ends_with("Huck's Voice to Text"));
}
