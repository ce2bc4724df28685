use torquebridge::diagnostics::DiagnosticsLog;
use torquebridge::editor::{
    analyze_launch_readiness, calibration_preset_index, calibration_workflow_step_count,
    clamp_workflow_step, hot_reload_summary, initial_status_message, parse_steering_raw_value,
    profile_filename_from_name, profile_option_index, profile_option_path_for_index,
    replay_source_label, resolve_routing_source, runtime_routing_analysis,
    steering_device_label_for_report, DeviceCatalog, ObservabilityController, RuntimeRoutingSource,
};
use torquebridge::inputs::WinmmDeviceInfo;

fn device(id: u32, name: &str) -> WinmmDeviceInfo {
    WinmmDeviceInfo { id, name: name.to_string(), axis_count: 4, button_count: 8 }
}

#[test]
fn device_catalog_uses_names_for_selected_device() {
    let catalog = DeviceCatalog {
        devices: vec![device(0, "FFBeast Wheel"), device(2, "Gamepad")],
        load_error: None,
    };

    assert_eq!(catalog.selected_index(None), 0);
    assert_eq!(catalog.selected_index(Some(2)), 2);
    assert_eq!(catalog.selected_index(Some(7)), 0);
    assert_eq!(catalog.device_id_for_index(0), None);
    assert_eq!(catalog.device_id_for_index(2), Some(2));
    assert_eq!(catalog.label_for_device(Some(0)), "FFBeast Wheel [WinMM #0]");
    assert_eq!(catalog.label_for_device(None), "No steering device");
    assert_eq!(hot_reload_summary(true), "On save");
    assert_eq!(hot_reload_summary(false), "Manual");
}

#[test]
fn device_catalog_reports_unknown_devices_and_listing_errors() {
    let catalog = DeviceCatalog { devices: vec![device(0, "Wheel")], load_error: None };
    assert_eq!(catalog.label_for_device(Some(12)), "WinMM #12 (not found)");
    assert_eq!(catalog.device_id_for_index(-1), None);
    assert_eq!(catalog.device_id_for_index(2), None);
    assert_eq!(catalog.option_labels(), vec!["No steering device", "Wheel [WinMM #0]"]);
    assert_eq!(catalog.empty_message(), "");

    let failed = DeviceCatalog::from_listing(Err("no WinMM".to_string()));
    assert!(failed.devices.is_empty());
    assert_eq!(failed.empty_message(), "Device names unavailable: no WinMM");
    let empty = DeviceCatalog::from_listing(Ok(Vec::new()));
    assert_eq!(empty.empty_message(), "No WinMM devices found.");

    assert_eq!(initial_status_message(None, &empty), "Save writes the profile.");
    assert_eq!(
        initial_status_message(None, &failed),
        "Save writes the profile. Device names unavailable."
    );
    assert_eq!(
        initial_status_message(Some("Settings reset.".to_string()), &failed),
        "Settings reset. Device names unavailable."
    );
    assert_eq!(initial_status_message(Some("Loaded.".to_string()), &empty), "Loaded.");
}

#[test]
fn calibration_presets_match_without_case() {
    assert_eq!(calibration_preset_index("FFBeast Precision"), 1);
    assert_eq!(calibration_preset_index("ffbeast drift"), 2);
    assert_eq!(calibration_preset_index("FFBEAST ENDURANCE"), 3);
    assert_eq!(calibration_preset_index("Custom"), 0);
    assert_eq!(calibration_workflow_step_count(), 4);
    assert_eq!(clamp_workflow_step(-3), 0);
    assert_eq!(clamp_workflow_step(2), 2);
    assert_eq!(clamp_workflow_step(9), 3);
}

#[test]
fn steering_raw_value_is_read_from_parentheses() {
    assert_eq!(parse_steering_raw_value("+12% ( 36000 )"), Some(36_000));
    assert_eq!(parse_steering_raw_value("-3% (-42)"), Some(-42));
    assert_eq!(parse_steering_raw_value("Unavailable"), None);
    assert_eq!(parse_steering_raw_value("(12"), None);
    assert_eq!(parse_steering_raw_value("(abc)"), None);
    assert_eq!(parse_steering_raw_value("(99999999999)"), None);
    assert_eq!(steering_device_label_for_report(Some(3)), "WinMM #3");
    assert_eq!(steering_device_label_for_report(None), "None");
}

#[test]
fn profile_file_names_are_compacted_and_sanitized() {
    assert_eq!(profile_filename_from_name("  My Drift Setup "), "MyDriftSetup.json");
    assert_eq!(profile_filename_from_name("a/b:c?"), "a-b-c-.json");
    assert_eq!(profile_filename_from_name(" \t "), "profile.json");
}

#[test]
fn observability_switches_between_live_and_replay() {
    let live = DiagnosticsLog::new("logs/bridge.jsonl");
    let mut controller = ObservabilityController::new(live);
    assert_eq!(controller.source_label(), "Source: live session log");
    assert_eq!(controller.current_log().path(), "logs/bridge.jsonl");
    assert!(!controller.return_to_live());

    controller.replay("logs/sessions/session-1.jsonl".to_string());
    assert_eq!(controller.current_log().path(), "logs/sessions/session-1.jsonl");
    assert_eq!(controller.source_label(), "Source: replaying session-1.jsonl");
    assert!(controller.return_to_live());
    assert_eq!(controller.current_log().path(), "logs/bridge.jsonl");
    assert_eq!(replay_source_label("/"), "/");
}

#[test]
fn routing_prefers_the_profile_then_a_matching_profile_then_the_seed_config() {
    let embedded = resolve_routing_source(Ok(true), Some(("m.json".into(), true)), None);
    assert!(matches!(embedded, RuntimeRoutingSource::EmbeddedProfile));
    let matching = resolve_routing_source(
        Ok(false),
        Some(("profiles/m.json".into(), true)),
        Some(("config.json".into(), true)),
    );
    assert!(matches!(&matching, RuntimeRoutingSource::MatchingProfile(p) if p == "profiles/m.json"));
    let fallback = resolve_routing_source(
        Ok(false),
        Some(("profiles/m.json".into(), false)),
        Some(("config.json".into(), true)),
    );
    assert!(matches!(&fallback, RuntimeRoutingSource::FallbackConfig(p) if p == "config.json"));
    assert!(matches!(
        resolve_routing_source(Ok(false), None, Some(("config.json".into(), false))),
        RuntimeRoutingSource::Missing
    ));
    assert!(matches!(
        resolve_routing_source(Err("bad json".into()), None, None),
        RuntimeRoutingSource::Unreadable(e) if e == "bad json"
    ));

    let (status, source) = runtime_routing_analysis(&matching, "profiles/p.json");
    assert_eq!(status, "Routing: Will recover from matching profile profiles/m.json.");
    assert_eq!(source, "Routing source: Matching profile profiles/m.json.");
    let (status, _) =
        runtime_routing_analysis(&RuntimeRoutingSource::Unreadable("x".into()), "profiles/p.json");
    assert_eq!(status, "Routing: Profile profiles/p.json is unreadable.");
}

#[test]
fn launch_readiness_blocks_on_the_first_problem() {
    let ready = analyze_launch_readiness(None, Ok(true), &RuntimeRoutingSource::EmbeddedProfile, "p.json");
    assert!(!ready.is_blocked);
    assert_eq!(ready.message, "ready");
    assert_eq!(ready.warning, None);

    let warned = analyze_launch_readiness(
        None,
        Ok(true),
        &RuntimeRoutingSource::FallbackConfig("config.json".into()),
        "p.json",
    );
    assert!(!warned.is_blocked);
    assert_eq!(warned.warning.as_deref(), Some("runtime routing depends on fallback config config.json"));

    let vjoy = analyze_launch_readiness(
        Some("vJoy is not installed".into()),
        Ok(true),
        &RuntimeRoutingSource::EmbeddedProfile,
        "p.json",
    );
    assert!(vjoy.is_blocked);
    assert_eq!(vjoy.message, "vJoy is not installed");

    let unreadable = analyze_launch_readiness(
        None,
        Err("bad json".into()),
        &RuntimeRoutingSource::Unreadable("bad json".into()),
        "p.json",
    );
    assert_eq!(unreadable.message, "profile p.json is unreadable: bad json");

    let no_steering =
        analyze_launch_readiness(None, Ok(false), &RuntimeRoutingSource::EmbeddedProfile, "p.json");
    assert_eq!(no_steering.message, "no steering input is assigned in the profile");

    let missing = analyze_launch_readiness(None, Ok(true), &RuntimeRoutingSource::Missing, "p.json");
    assert!(missing.is_blocked);
    assert!(missing.message.starts_with("profile p.json is missing runtime controller routing"));
}

#[test]
fn profile_options_are_found_without_case() {
    let options = vec!["profiles/A.json".to_string(), "profiles/b.json".to_string()];
    assert_eq!(profile_option_index("profiles/B.JSON", &options), 2);
    assert_eq!(profile_option_index("profiles/c.json", &options), 0);
    assert_eq!(profile_option_path_for_index(1, &options), Some("profiles/A.json".to_string()));
    assert_eq!(profile_option_path_for_index(0, &options), None);
    assert_eq!(profile_option_path_for_index(3, &options), None);
}

#[test]
fn steering_labels_round_trip_through_the_parser() {
    for raw in [0, 1, -1, 32_767, 65_535, i32::MIN, i32::MAX] {
        let label = format!("+12% ({raw})");
        assert_eq!(parse_steering_raw_value(&label), Some(raw), "{label}");
    }
    // whitespace around the value is ignored, inside it is not
    assert_eq!(parse_steering_raw_value("x (\u{3000}7\t)"), Some(7));
    assert_eq!(parse_steering_raw_value("x (7 7)"), None);
}

#[test]
fn the_selected_row_leads_back_to_the_device() {
    let catalog = DeviceCatalog {
        devices: vec![device(4, "Pedals"), device(9, "Wheel"), device(9, "Wheel again")],
        load_error: None,
    };
    for id in [4, 9] {
        let row = catalog.selected_index(Some(id));
        assert_eq!(catalog.device_id_for_index(row), Some(id));
    }
    assert_eq!(catalog.selected_index(Some(9)), 2);
}
