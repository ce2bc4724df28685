use torquebridge::backends::ffbeast_direct::FFBeastDirectAdapter;
use torquebridge::constants::{
    DATA_OVERRIDE_DIRECT_CONTROL, OUTPUT_REPORT_SIZE, REPORT_DEVICE_GAIN, REPORT_DEVICE_STATE,
    REPORT_SIZE,
};
use torquebridge::domain::{
    ConditionCommand, ConstantCommand, DeviceControlCommand, EffectKind, EffectMetadata,
    PeriodicCommand, WheelCommand,
};
use torquebridge::protocol::{
    device_gain_report, direct_control_report, i16_from_le_bytes, i16_to_le_bytes, output_report,
    state_from_input_report, DeviceState, DirectControl,
};

fn metadata() -> EffectMetadata {
    EffectMetadata {
        duration_ms: 100_000,
        gain: 10_000,
        raw_gain: 255,
        direction: 0,
        sample_period: 0,
        trigger_button: -1,
        trigger_repeat_interval: 0,
    }
}

fn constant(magnitude: i32) -> WheelCommand {
    WheelCommand::Constant(ConstantCommand { metadata: metadata(), magnitude })
}

fn spring() -> WheelCommand {
    WheelCommand::Condition(ConditionCommand {
        metadata: metadata(),
        kind: EffectKind::Spring,
        dead_band: 0,
        center_point_offset: 0,
        positive_coefficient: 10_000,
        negative_coefficient: 10_000,
        positive_saturation: 10_000,
        negative_saturation: 10_000,
    })
}

fn damper() -> WheelCommand {
    WheelCommand::Condition(ConditionCommand {
        metadata: metadata(),
        kind: EffectKind::Damper,
        dead_band: 0,
        center_point_offset: 0,
        positive_coefficient: 10_000,
        negative_coefficient: 10_000,
        positive_saturation: 3_000,
        negative_saturation: 3_000,
    })
}

#[test]
fn constant_command_produces_direct_control_output() {
    let mut adapter = FFBeastDirectAdapter::new();
    let commands = [constant(-5_000)];
    assert!(adapter.commands_are_defined(&commands));
    let control = adapter.apply_commands(&commands).expect("pending direct control");
    assert_eq!(control.constant_force, -5_000);
    assert_eq!(adapter.current_output(), control);
    assert_eq!(adapter.take_pending_output(), Some(control));
    assert_eq!(adapter.take_pending_output(), None);
}

#[test]
fn repeating_the_same_commands_reports_no_change() {
    let mut adapter = FFBeastDirectAdapter::new();
    assert!(adapter.apply_commands(&[constant(2_000)]).is_some());
    assert_eq!(adapter.apply_commands(&[constant(2_000)]), None);
    assert_eq!(adapter.apply_commands(&[WheelCommand::Ignore]), None);
}

#[test]
fn forces_are_clamped_to_the_wheel_range() {
    let mut adapter = FFBeastDirectAdapter::new();
    let control = adapter
        .apply_commands(&[
            constant(25_000),
            WheelCommand::Periodic(PeriodicCommand {
                metadata: metadata(),
                magnitude: -40_000,
                offset: 0,
                period: 100,
                phase: 0,
            }),
        ])
        .expect("output");
    assert_eq!(control.constant_force, 10_000);
    assert_eq!(control.periodic_force, -10_000);
}

#[test]
fn stop_effect_clears_constant_force() {
    let mut adapter = FFBeastDirectAdapter::new();
    let _ = adapter.apply_commands(&[constant(-5_000)]);
    let stop = adapter
        .apply_commands(&[WheelCommand::StopEffect(EffectKind::Constant)])
        .expect("stop output");
    assert_eq!(stop.constant_force, 0);
}

#[test]
fn stopping_device_controls_silence_every_channel() {
    for command in [DeviceControlCommand::Reset, DeviceControlCommand::StopAll, DeviceControlCommand::Pause] {
        let mut adapter = FFBeastDirectAdapter::new();
        let _ = adapter.update_steering_state(40_000);
        let _ = adapter.apply_commands(&[constant(3_000), spring()]);
        let _ = adapter.apply_commands(&[WheelCommand::DeviceControl(command)]);
        assert_eq!(adapter.current_output(), DirectControl::default());
    }
    let mut adapter = FFBeastDirectAdapter::new();
    let _ = adapter.apply_commands(&[constant(3_000)]);
    assert_eq!(adapter.apply_commands(&[WheelCommand::DeviceControl(DeviceControlCommand::Continue)]), None);
    assert_eq!(adapter.current_output().constant_force, 3_000);
}

#[test]
fn steering_update_recomputes_spring_force() {
    let mut adapter = FFBeastDirectAdapter::new();
    let _ = adapter.apply_commands(&[spring()]);
    assert!(adapter.steering_update_is_defined(45_000));
    let right = adapter.update_steering_state(45_000).expect("pending control from steering update");
    assert!(right.spring_force < 0);
    let left = adapter.update_steering_state(20_000).expect("pending control");
    assert!(left.spring_force > 0);
    let centered = adapter.update_steering_state(32_767).expect("pending control");
    assert_eq!(centered.spring_force, 0);
}

#[test]
fn spring_force_follows_its_formula() {
    let mut adapter = FFBeastDirectAdapter::new();
    let _ = adapter.apply_commands(&[spring()]);
    let control = adapter.update_steering_state(42_767).expect("output");
    // 10000 * 10000 / 32767, opposing the displacement
    assert_eq!(control.spring_force, -3_051);
}

#[test]
fn damper_force_opposes_motion() {
    let mut adapter = FFBeastDirectAdapter::new();
    let _ = adapter.update_steering_state(30_000);
    let _ = adapter.apply_commands(&[damper()]);
    let moving_right = adapter.update_steering_state(40_000).expect("output");
    assert_eq!(moving_right.spring_force, -3_000);
    let moving_left = adapter.update_steering_state(39_000).expect("output");
    assert!(moving_left.spring_force > 0);
    let still = adapter.update_steering_state(39_000).expect("output");
    assert_eq!(still.spring_force, 0);
}

#[test]
fn negative_saturation_is_outside_the_defined_range() {
    let adapter = FFBeastDirectAdapter::new();
    let bad = WheelCommand::Condition(ConditionCommand {
        metadata: metadata(),
        kind: EffectKind::Spring,
        dead_band: 0,
        center_point_offset: 0,
        positive_coefficient: 10_000,
        negative_coefficient: 10_000,
        positive_saturation: -1,
        negative_saturation: 10_000,
    });
    assert!(adapter.commands_are_defined(&[bad]));
    let mut moved = FFBeastDirectAdapter::new();
    let _ = moved.update_steering_state(50_000);
    assert!(!moved.commands_are_defined(&[bad]));
}

#[test]
fn direct_control_payload_layout() {
    let control = DirectControl { spring_force: -2, constant_force: 12_000, periodic_force: 300, force_drop: 150 };
    let clamped = control.clamped();
    assert_eq!(clamped, DirectControl { spring_force: -2, constant_force: 10_000, periodic_force: 300, force_drop: 100 });
    let payload = control.to_report_payload();
    assert_eq!(payload.len(), REPORT_SIZE);
    assert_eq!(payload[0], DATA_OVERRIDE_DIRECT_CONTROL);
    assert_eq!(&payload[1..8], &[0xfe, 0xff, 0x10, 0x27, 0x2c, 0x01, 100]);
    assert!(payload[8..].iter().all(|b| *b == 0));
}

#[test]
fn little_endian_values_round_trip() {
    for v in [i16::MIN, -10_000, -1, 0, 1, 255, 256, 10_000, i16::MAX] {
        let (lo, hi) = i16_to_le_bytes(v);
        assert_eq!([lo, hi], v.to_le_bytes());
        assert_eq!(i16_from_le_bytes(lo, hi), v);
    }
}

#[test]
fn device_state_is_decoded_from_a_report() {
    let mut payload = [0u8; REPORT_SIZE];
    payload[..9].copy_from_slice(&[1, 2, 3, 4, 1, 0x10, 0x27, 0xf0, 0xd8]);
    let state = DeviceState::from_payload(&payload);
    assert_eq!(state.firmware_raw, [1, 2, 3, 4]);
    assert_eq!(state.is_registered, 1);
    assert_eq!(state.position_raw, 10_000);
    assert_eq!(state.torque_raw, -10_000);
}

#[test]
fn output_reports_carry_their_id_first() {
    let mut payload = [0u8; REPORT_SIZE];
    payload[0] = 9;
    payload[63] = 7;
    let report = output_report(0x42, &payload);
    assert_eq!(report.len(), OUTPUT_REPORT_SIZE);
    assert_eq!(report[0], 0x42);
    assert_eq!(report[1], 9);
    assert_eq!(report[64], 7);

    let control = DirectControl { spring_force: 1, constant_force: 2, periodic_force: 3, force_drop: 4 };
    let report = direct_control_report(control);
    assert_eq!(report[0], REPORT_DEVICE_STATE);
    assert_eq!(&report[1..], &control.to_report_payload()[..]);

    let gain = device_gain_report(250);
    assert_eq!(gain[0], REPORT_DEVICE_GAIN);
    assert_eq!(gain[1], 100);
    assert!(gain[2..].iter().all(|b| *b == 0));
    assert_eq!(device_gain_report(40)[1], 40);
}

#[test]
fn input_reports_skip_the_state_report_id() {
    let mut buf = [0u8; OUTPUT_REPORT_SIZE];
    buf[..10].copy_from_slice(&[REPORT_DEVICE_STATE, 1, 2, 3, 4, 1, 0x10, 0x27, 0xf0, 0xd8]);
    let state = state_from_input_report(&buf, OUTPUT_REPORT_SIZE);
    assert_eq!(state.firmware_raw, [1, 2, 3, 4]);
    assert_eq!(state.position_raw, 10_000);
    assert_eq!(state.torque_raw, -10_000);

    let mut plain = [0u8; OUTPUT_REPORT_SIZE];
    plain[..9].copy_from_slice(&[5, 6, 7, 8, 0, 0x01, 0x00, 0x02, 0x00]);
    let state = state_from_input_report(&plain, 9);
    assert_eq!(state.firmware_raw, [5, 6, 7, 8]);
    assert_eq!(state.position_raw, 1);
    assert_eq!(state.torque_raw, 2);

    // only the bytes that were read count
    let short = state_from_input_report(&plain, 6);
    assert_eq!(short.position_raw, 1);
    assert_eq!(short.torque_raw, 0);

    let empty = state_from_input_report(&buf, 0);
    assert_eq!(empty.firmware_raw, [0, 0, 0, 0]);
    assert_eq!(empty.position_raw, 0);
}
