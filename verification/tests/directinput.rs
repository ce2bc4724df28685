use torquebridge::backends::directinput::{
    capabilities_from_flags, clamp_signed_10k, clamp_unsigned_10k, describe_devices,
    device_control_code, failed, guid_to_string, ms_to_us, needs_start, normalize_guid_token,
    select_configured_ffb_device, wide_null, ConfiguredController, DirectInputError,
    EnumeratedDevice, Guid, DIDC_FORCEFEEDBACK, DISFFC_CONTINUE, DISFFC_PAUSE, DISFFC_RESET,
    DISFFC_STOPALL, INFINITE_DURATION, make_effect_timing, plan_command, EffectAction,
    EffectSlot, TypeSpecificParams, DIEB_NOTRIGGER, DIEFF_CARTESIAN, DIEFF_OBJECTIDS,
};
use torquebridge::domain::{
    ConstantCommand, DeviceControlCommand, EffectKind, EffectMetadata, WheelCommand,
};

#[test]
fn normalize_guid_token_strips_punctuation() {
    assert_eq!(
        normalize_guid_token("{1F577B90-4000-11F0-8001-444553540000}"),
        "1f577b90400011f08001444553540000"
    );
}

#[test]
fn guid_to_string_uses_windows_layout() {
    let guid = Guid {
        data1: 0x1f577b90,
        data2: 0x4000,
        data3: 0x11f0,
        data4: [0x80, 0x01, 0x44, 0x45, 0x53, 0x54, 0x00, 0x00],
    };

    assert_eq!(guid_to_string(&guid), "1f577b90-4000-11f0-8001-444553540000");
}

#[test]
fn guid_text_normalizes_to_the_same_token_as_its_braced_form() {
    let guid = Guid {
        data1: 0x0000_00ff,
        data2: 0x00a0,
        data3: 0x0b0c,
        data4: [0, 1, 2, 3, 4, 5, 6, 0xff],
    };
    let text = guid_to_string(&guid);
    assert_eq!(text, "000000ff-00a0-0b0c-0001-0203040506ff");
    assert_eq!(
        normalize_guid_token(&text),
        normalize_guid_token("{000000FF-00A0-0B0C-0001-0203040506FF}")
    );
}

#[test]
fn wide_null_appends_a_terminator() {
    assert_eq!(wide_null("ab"), vec![97u16, 98, 0]);
    assert_eq!(wide_null(""), vec![0u16]);
}

#[test]
fn force_values_are_clamped_to_the_directinput_range() {
    assert_eq!(clamp_signed_10k(-20_000), -10_000);
    assert_eq!(clamp_signed_10k(12_345), 10_000);
    assert_eq!(clamp_signed_10k(-42), -42);
    assert_eq!(clamp_unsigned_10k(-1), 0);
    assert_eq!(clamp_unsigned_10k(10_001), 10_000);
    assert_eq!(clamp_unsigned_10k(7), 7);
}

#[test]
fn durations_convert_to_microseconds() {
    assert_eq!(ms_to_us(-1), INFINITE_DURATION);
    assert_eq!(ms_to_us(250), 250_000);
    assert_eq!(ms_to_us(i32::MAX), u32::MAX);
}

#[test]
fn device_control_codes_and_status_flags() {
    assert_eq!(device_control_code(DeviceControlCommand::Reset), DISFFC_RESET);
    assert_eq!(device_control_code(DeviceControlCommand::StopAll), DISFFC_STOPALL);
    assert_eq!(device_control_code(DeviceControlCommand::Pause), DISFFC_PAUSE);
    assert_eq!(device_control_code(DeviceControlCommand::Continue), DISFFC_CONTINUE);
    assert!(needs_start(0));
    assert!(!needs_start(1));
    assert!(failed(-2147467259));
    assert!(!failed(0));
    assert!(capabilities_from_flags(DIDC_FORCEFEEDBACK | 1).force_feedback_capable);
    assert!(!capabilities_from_flags(1).force_feedback_capable);
}

fn guid(data1: u32) -> Guid {
    Guid { data1, data2: 0x4000, data3: 0x11f0, data4: [0x80, 1, 0x44, 0x45, 0x53, 0x54, 0, 0] }
}

fn vjoy_product() -> Guid {
    Guid {
        data1: 0xbead1234,
        data2: 0,
        data3: 0,
        data4: [0, 0, 0x50, 0x49, 0x44, 0x56, 0x49, 0x44],
    }
}

#[test]
fn device_listing_skips_vjoy_and_marks_configured_devices() {
    let devices = vec![
        EnumeratedDevice {
            instance_guid: guid(1),
            product_guid: vjoy_product(),
            instance_name: "vJoy Device".to_string(),
            product_name: "vJoy Device".to_string(),
        },
        EnumeratedDevice {
            instance_guid: guid(2),
            product_guid: guid(9),
            instance_name: "FFBeast Wheel".to_string(),
            product_name: "FFBeast".to_string(),
        },
    ];
    let controllers = vec![ConfiguredController {
        instance_guid: "{00000002-4000-11F0-8001-444553540000}".to_string(),
        instance_name: "FFBeast Wheel".to_string(),
        has_ffb_parameters: true,
    }];

    let listed = describe_devices(&devices, &controllers);
    assert_eq!(listed.len(), 1);
    assert_eq!(listed[0].instance_name, "FFBeast Wheel");
    assert_eq!(listed[0].instance_guid, "00000002-4000-11f0-8001-444553540000");
    assert!(listed[0].configured);
    assert!(listed[0].configured_ffb);

    match select_configured_ffb_device(&devices, &controllers) {
        Ok((index, info)) => {
            assert_eq!(index, 1);
            assert_eq!(info.product_guid, "00000009-4000-11f0-8001-444553540000");
            assert!(info.configured && info.configured_ffb);
        }
        Err(error) => panic!("unexpected error: {error:?}"),
    }
}

#[test]
fn selecting_without_ffb_configuration_fails() {
    let devices = vec![EnumeratedDevice {
        instance_guid: guid(2),
        product_guid: guid(9),
        instance_name: "FFBeast Wheel".to_string(),
        product_name: "FFBeast".to_string(),
    }];
    let unconfigured = vec![ConfiguredController {
        instance_guid: "00000002-4000-11f0-8001-444553540000".to_string(),
        instance_name: "FFBeast Wheel".to_string(),
        has_ffb_parameters: false,
    }];
    assert!(matches!(
        select_configured_ffb_device(&devices, &unconfigured),
        Err(DirectInputError::NoConfiguredFfbDevice)
    ));

    let detached = vec![ConfiguredController {
        instance_guid: "00000003-4000-11f0-8001-444553540000".to_string(),
        instance_name: "Old Wheel".to_string(),
        has_ffb_parameters: true,
    }];
    match select_configured_ffb_device(&devices, &detached) {
        Err(DirectInputError::ConfiguredFfbDeviceNotAttached { instance_name, instance_guid }) => {
            assert_eq!(instance_name, "Old Wheel");
            assert_eq!(instance_guid, "00000003-4000-11f0-8001-444553540000");
        }
        other => panic!("unexpected result: {other:?}"),
    }
}

#[test]
fn make_effect_uses_object_ids_flag() {
    let timing = make_effect_timing(10_000, -1, 0, -1, 0, 1);
    assert_eq!(timing.flags, DIEFF_OBJECTIDS | DIEFF_CARTESIAN);
    assert_eq!(timing.axis_count, 1);
    assert_eq!(timing.duration_us, INFINITE_DURATION);
    assert_eq!(timing.trigger_button, DIEB_NOTRIGGER);
    assert_eq!(timing.gain, 10_000);
}

#[test]
fn wheel_commands_plan_effect_updates() {
    let metadata = EffectMetadata {
        duration_ms: 5,
        gain: 12_000,
        raw_gain: 255,
        direction: 3,
        sample_period: 7,
        trigger_button: 2,
        trigger_repeat_interval: 9,
    };
    match plan_command(&WheelCommand::Constant(ConstantCommand { metadata, magnitude: -20_000 })) {
        EffectAction::Update { slot, direction, params, timing } => {
            assert_eq!(slot, EffectSlot::Constant);
            assert_eq!(direction, 3);
            assert_eq!(params, TypeSpecificParams::Constant { magnitude: -10_000 });
            assert_eq!(timing.duration_us, 5_000);
            assert_eq!(timing.gain, 10_000);
            assert_eq!(timing.trigger_button, 2);
            assert_eq!(timing.sample_period, 7);
            assert_eq!(timing.trigger_repeat_interval, 9);
        }
        other => panic!("unexpected plan: {other:?}"),
    }
    assert_eq!(plan_command(&WheelCommand::Ignore), EffectAction::Nothing);
    assert_eq!(
        plan_command(&WheelCommand::StopEffect(EffectKind::Triangle)),
        EffectAction::Stop(EffectSlot::Sine)
    );
    assert_eq!(plan_command(&WheelCommand::StopEffect(EffectKind::Ramp)), EffectAction::Nothing);
    assert_eq!(
        plan_command(&WheelCommand::DeviceControl(DeviceControlCommand::Pause)),
        EffectAction::DeviceControl(DISFFC_PAUSE)
    );
}
