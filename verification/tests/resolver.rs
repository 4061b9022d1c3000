use vlc_instance::settings::{Resolution, SettingValue, SettingsStore};

fn empty_store() -> SettingsStore {
    SettingsStore { log_level: None, arguments: None, compatibility_mode: None }
}

fn strings(items: &[&str]) -> Vec<String> {
    items.iter().map(|s| s.to_string()).collect()
}

#[test]
fn empty_store_gets_defaults() {
    let mut store = empty_store();
    let r: Resolution = store.resolve(false);

    assert_eq!(store.log_level, Some(SettingValue::IntValue(4)));
    assert_eq!(store.arguments, Some(SettingValue::StringList(vec![])));
    assert_eq!(store.compatibility_mode, Some(SettingValue::BoolValue(false)));

    assert_eq!(r.log_level, 4);
    assert!(r.arguments.is_empty());
    assert!(!r.compatibility_mode);
    assert_eq!(r.notice, None);

    assert_eq!(r.metadata.len(), 3);
    assert_eq!(r.metadata[0].name, "vlc/log_level");
    assert_eq!(r.metadata[1].name, "vlc/arguments");
    assert_eq!(r.metadata[2].name, "vlc/steamdeck_mode");
    assert!(r.metadata.iter().all(|m| m.restart_required));
    assert_eq!(r.metadata[0].initial, SettingValue::IntValue(4));
    assert_eq!(r.metadata[1].initial, SettingValue::StringList(vec![]));
    assert_eq!(r.metadata[2].initial, SettingValue::BoolValue(false));
    assert_eq!(r.metadata[0].hint_string, "Debug, Info, Warning, Error, Disabled");
}

#[test]
fn compatibility_mode_appends_hw_argument() {
    let mut store = SettingsStore {
        log_level: Some(SettingValue::IntValue(0)),
        arguments: Some(SettingValue::StringList(strings(&["--foo"]))),
        compatibility_mode: Some(SettingValue::BoolValue(true)),
    };
    let r = store.resolve(false);

    assert_eq!(r.arguments, strings(&["--foo", "--avcodec-hw=any"]));
    assert!(r.compatibility_mode);
    assert_eq!(
        r.notice,
        Some("VLC: Steam Deck mode enabled - using system VLC with hardware acceleration".to_string()),
    );
}

#[test]
fn marker_already_present_appends_nothing() {
    let mut store = SettingsStore {
        log_level: Some(SettingValue::IntValue(2)),
        arguments: Some(SettingValue::StringList(strings(&["--avcodec-hw=vaapi", "--bar"]))),
        compatibility_mode: Some(SettingValue::BoolValue(true)),
    };
    let r = store.resolve(false);
    assert_eq!(r.arguments, strings(&["--avcodec-hw=vaapi", "--bar"]));
}

#[test]
fn marker_matches_as_substring() {
    let mut store = SettingsStore {
        log_level: None,
        arguments: Some(SettingValue::StringList(strings(&["xx avcodec-hw yy"]))),
        compatibility_mode: Some(SettingValue::BoolValue(true)),
    };
    let r = store.resolve(false);
    assert_eq!(r.arguments, strings(&["xx avcodec-hw yy"]));
}

#[test]
fn resolving_twice_is_idempotent() {
    let mut store = SettingsStore {
        log_level: None,
        arguments: Some(SettingValue::StringList(strings(&["--quiet"]))),
        compatibility_mode: None,
    };
    let first = store.resolve(true);
    let second = store.resolve(false);

    assert_eq!(first.arguments, second.arguments);
    assert_eq!(first.log_level, second.log_level);
    assert_eq!(first.compatibility_mode, second.compatibility_mode);
}

#[test]
fn detection_fills_first_compatibility_value() {
    let mut store = empty_store();
    let r = store.resolve(true);

    // the first written value is platform-detected ...
    assert_eq!(store.compatibility_mode, Some(SettingValue::BoolValue(true)));
    assert!(r.compatibility_mode);
    assert_eq!(r.arguments, strings(&["--avcodec-hw=any"]));
    // ... while the registered initial value stays false
    assert_eq!(r.metadata[2].initial, SettingValue::BoolValue(false));
}

#[test]
fn mistyped_slots_fall_back_to_defaults() {
    let mut store = SettingsStore {
        log_level: Some(SettingValue::BoolValue(true)),
        arguments: Some(SettingValue::IntValue(3)),
        compatibility_mode: Some(SettingValue::IntValue(1)),
    };
    let r = store.resolve(true);

    assert_eq!(r.log_level, 4);
    assert!(r.arguments.is_empty());
    assert!(!r.compatibility_mode);
    // present slots are not overwritten, even when mistyped
    assert_eq!(store.log_level, Some(SettingValue::BoolValue(true)));
}
