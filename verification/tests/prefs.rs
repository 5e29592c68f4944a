use gdvgrab::prefs::Preferences;

#[test]
fn default_preferences() {
    let preferences = Preferences::default();
    assert_eq!(preferences.last_path, "");
    assert_eq!(preferences.guid, 0);
    assert_eq!(preferences.buffer_size, 0);
    assert!(!preferences.rewind_first);
}

#[test]
fn missing_store_gives_the_defaults() {
    assert_eq!(Preferences::restore(None), Preferences::default());
}

#[test]
fn stored_preferences_are_restored_unchanged() {
    let stored = Preferences {
        last_path: "/home/me/tapes/last.dv".to_string(),
        guid: 0x0800_4601_0243_9a7b,
        buffer_size: -5,
        rewind_first: true,
    };
    assert_eq!(Preferences::restore(Some(stored.clone())), stored);
    assert_eq!(Preferences::restore(Some(Preferences::default())), Preferences::default());
}

#[test]
fn preferences_clone_is_equal() {
    let stored = Preferences {
        last_path: "a b".to_string(),
        guid: u64::MAX,
        buffer_size: i32::MIN,
        rewind_first: true,
    };
    assert_eq!(stored.clone(), stored);
}
