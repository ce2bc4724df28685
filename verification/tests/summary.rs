use torquebridge::domain::{
    ConditionCommand, ConstantCommand, DeviceControlCommand, EffectKind, EffectMetadata,
    EffectUpdate, GameEffect, PeriodicCommand, WheelCommand,
};
use torquebridge::inputs::WinmmJoystick;
use torquebridge::summary::{
    describe_effect_kind, describe_effect_update, describe_game_effect, describe_wheel_command, steering_input_label,
    steering_input_status_message, summarize_effect_updates, summarize_wheel_commands,
};

fn metadata(gain: i32) -> EffectMetadata {
    EffectMetadata {
        duration_ms: 250,
        gain,
        raw_gain: 0,
        direction: 9,
        sample_period: 0,
        trigger_button: -1,
        trigger_repeat_interval: 0,
    }
}

#[test]
fn effects_are_described_with_their_parameters() {
    assert_eq!(
        describe_game_effect(&GameEffect::Constant { metadata: metadata(5_000), magnitude: -12 }),
        "constant(magnitude=-12, gain=5000, duration_ms=250)"
    );
    assert_eq!(
        describe_game_effect(&GameEffect::Periodic {
            metadata: metadata(1),
            magnitude: 3,
            offset: -4,
            period: 5,
            phase: 6,
        }),
        "periodic(magnitude=3, offset=-4, period=5, phase=6, gain=1)"
    );
    assert_eq!(
        describe_effect_update(&EffectUpdate::Apply(GameEffect::Condition {
            metadata: metadata(7),
            kind: EffectKind::Spring,
            dead_band: 0,
            center_point_offset: 0,
            positive_coefficient: 1,
            negative_coefficient: -2,
            positive_saturation: 3,
            negative_saturation: 4,
        })),
        "condition(kind=Spring, pos_coef=1, neg_coef=-2, pos_sat=3, neg_sat=4, gain=7)"
    );
    assert_eq!(describe_effect_update(&EffectUpdate::Ignore), "ignore");
    assert_eq!(
        describe_effect_update(&EffectUpdate::DeviceControl(DeviceControlCommand::StopAll)),
        "device_control(StopAll)"
    );
    assert_eq!(describe_effect_update(&EffectUpdate::StopEffect(EffectKind::NoEffect)), "stop(None)");
    assert_eq!(describe_effect_update(&EffectUpdate::StopEffect(EffectKind::Unknown(-3))), "stop(Unknown(-3))");
}

#[test]
fn wheel_commands_are_described_with_their_parameters() {
    assert_eq!(
        describe_wheel_command(&WheelCommand::Constant(ConstantCommand { metadata: metadata(10_000), magnitude: -5_000 })),
        "constant(magnitude=-5000, gain=10000, direction=9)"
    );
    assert_eq!(
        describe_wheel_command(&WheelCommand::Periodic(PeriodicCommand {
            metadata: metadata(2),
            magnitude: 1,
            offset: 0,
            period: 100,
            phase: 0,
        })),
        "periodic(magnitude=1, offset=0, period=100, phase=0, gain=2)"
    );
    assert_eq!(
        describe_wheel_command(&WheelCommand::Condition(ConditionCommand {
            metadata: metadata(3),
            kind: EffectKind::Damper,
            dead_band: 0,
            center_point_offset: 0,
            positive_coefficient: 10,
            negative_coefficient: 20,
            positive_saturation: 30,
            negative_saturation: 40,
        })),
        "condition(kind=Damper, pos_coef=10, neg_coef=20, pos_sat=30, neg_sat=40, gain=3)"
    );
    assert_eq!(
        describe_wheel_command(&WheelCommand::DeviceControl(DeviceControlCommand::Continue)),
        "device_control(Continue)"
    );
    assert_eq!(describe_wheel_command(&WheelCommand::StopEffect(EffectKind::SawDown)), "stop(SawDown)");
}

#[test]
fn summaries_list_four_items_and_count_the_rest() {
    assert_eq!(summarize_effect_updates(&[]), "none");
    assert_eq!(summarize_wheel_commands(&[]), "none");
    assert_eq!(summarize_effect_updates(&[EffectUpdate::Ignore]), "ignore");
    let stops: Vec<WheelCommand> = (0..6).map(|_| WheelCommand::StopEffect(EffectKind::Sine)).collect();
    assert_eq!(
        summarize_wheel_commands(&stops),
        "stop(Sine); stop(Sine); stop(Sine); stop(Sine); +2 more"
    );
    assert_eq!(
        summarize_wheel_commands(&stops[..4]),
        "stop(Sine); stop(Sine); stop(Sine); stop(Sine)"
    );
}

#[test]
fn steering_input_texts_name_the_device() {
    let joystick = WinmmJoystick::opened(2, "FFBeast Wheel".to_string());
    assert_eq!(steering_input_label(Some(&joystick)), "FFBeast Wheel [WinMM #2]");
    assert_eq!(steering_input_label(None), "No steering input");
    assert_eq!(
        steering_input_status_message(Some(&joystick)),
        "using WinMM input device 2 (FFBeast Wheel) for live steering-state updates"
    );
    assert!(steering_input_status_message(None).starts_with("no live steering input selected"));
}

#[test]
fn effect_kinds_are_named_as_logged() {
    assert_eq!(describe_effect_kind(EffectKind::Spring), "Spring");
    assert_eq!(describe_effect_kind(EffectKind::NoEffect), "None");
    assert_eq!(describe_effect_kind(EffectKind::Unknown(40)), "Unknown(40)");
}
