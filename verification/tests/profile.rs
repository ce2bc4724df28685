use torquebridge::profile::{
    default_profile_version, is_supported_version, resolved_poll_ms, resolved_steering_device,
    ModifiedTime, ProfileWatcher, CURRENT_PROFILE_VERSION,
};

#[test]
fn resolved_runtime_fields_prefer_cli_over_profile() {
    let profile_steering_device = Some(4);
    let profile_poll_ms = Some(8);

    assert_eq!(resolved_steering_device(Some(7), profile_steering_device), Some(7));
    assert_eq!(resolved_poll_ms(Some(3), profile_poll_ms, 5), 3);
}

#[test]
fn resolved_runtime_fields_fall_back_to_profile_then_default() {
    assert_eq!(resolved_steering_device(None, Some(4)), Some(4));
    assert_eq!(resolved_steering_device(None, None), None);
    assert_eq!(resolved_poll_ms(None, Some(8), 5), 8);
    assert_eq!(resolved_poll_ms(None, None, 5), 5);
}

#[test]
fn only_the_current_version_is_supported() {
    assert_eq!(default_profile_version(), CURRENT_PROFILE_VERSION);
    assert!(is_supported_version(1));
    assert!(!is_supported_version(2));
}

fn at(seconds: u64) -> ModifiedTime {
    ModifiedTime { after_epoch: true, seconds, nanos: 0 }
}

#[test]
fn watcher_reports_no_change_when_timestamp_matches() {
    let watcher = ProfileWatcher::new("profiles/p.json", at(10));
    assert_eq!(watcher.path(), "profiles/p.json");
    assert!(!watcher.needs_reload(at(10)));
}

#[test]
fn watcher_reloads_when_file_changes() {
    let mut watcher = ProfileWatcher::new("profiles/p.json", at(10));
    assert!(watcher.needs_reload(at(11)));
    assert!(watcher.needs_reload(ModifiedTime { after_epoch: true, seconds: 10, nanos: 1 }));
    watcher.mark_loaded(at(11));
    assert!(!watcher.needs_reload(at(11)));
    assert!(watcher.needs_reload(at(10)));
}
