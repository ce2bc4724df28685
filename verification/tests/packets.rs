use torquebridge::domain::{DeviceControlCommand, EffectKind, EffectUpdate, GameEffect};
use torquebridge::ffb_packet::{
    effect_metadata, map_control_update, map_effect_kind, PacketProcessResult, PacketReader,
    ParsedPacket,
};
use torquebridge::vjoy::ffi::{
    RawDeviceControl, RawEffConstant, RawEffOp, RawEffReport, RawEffectType, RawPacketType,
};

fn effect_report(effect_type_raw: i32, gain: u8) -> RawEffReport {
    RawEffReport { effect_type_raw, gain, duration: 1_000, triger_btn: u8::MAX, ..RawEffReport::default() }
}

fn constant_report(magnitude: i16) -> RawEffConstant {
    RawEffConstant { magnitude, ..RawEffConstant::default() }
}

#[test]
fn constant_effect_is_emitted_once_both_reports_arrive() {
    let mut reader = PacketReader::default();
    assert_eq!(reader.process_packet(ParsedPacket::Constant(constant_report(4_000))), PacketProcessResult::Updated);
    match reader.process_packet(ParsedPacket::Effect(effect_report(1, 255))) {
        PacketProcessResult::EffectUpdates(updates) => {
            assert_eq!(updates.len(), 1);
            match updates[0] {
                EffectUpdate::Apply(GameEffect::Constant { metadata, magnitude }) => {
                    assert_eq!(magnitude, 4_000);
                    assert_eq!(metadata.gain, 10_000);
                    assert_eq!(metadata.duration_ms, 1_000);
                    assert_eq!(metadata.trigger_button, -1);
                }
                other => panic!("unexpected update: {other:?}"),
            }
        }
        other => panic!("unexpected result: {other:?}"),
    }
}

#[test]
fn repeated_reports_are_ignored() {
    let mut reader = PacketReader::default();
    let report = effect_report(1, 128);
    let _ = reader.process_packet(ParsedPacket::Effect(report));
    assert_eq!(reader.process_packet(ParsedPacket::Effect(report)), PacketProcessResult::IgnoredDuplicate);
    let _ = reader.process_packet(ParsedPacket::Gain(200));
    assert_eq!(reader.process_packet(ParsedPacket::Gain(200)), PacketProcessResult::IgnoredDuplicate);
    assert_eq!(reader.process_packet(ParsedPacket::Gain(201)), PacketProcessResult::Updated);
}

#[test]
fn stop_operation_emits_a_stop_of_the_effect_kind_first() {
    let mut reader = PacketReader::default();
    let _ = reader.process_packet(ParsedPacket::Constant(constant_report(-2_000)));
    let _ = reader.process_packet(ParsedPacket::Effect(effect_report(1, 255)));
    let stop = RawEffOp { effect_op_raw: 3, ..RawEffOp::default() };
    match reader.process_packet(ParsedPacket::Operation(stop)) {
        PacketProcessResult::EffectUpdates(updates) => {
            assert_eq!(updates[0], EffectUpdate::StopEffect(EffectKind::Constant));
            assert_eq!(updates.len(), 2);
        }
        other => panic!("unexpected result: {other:?}"),
    }
    // an operation is never a duplicate
    assert!(matches!(
        reader.process_packet(ParsedPacket::Operation(stop)),
        PacketProcessResult::EffectUpdates(_)
    ));
}

#[test]
fn control_packets_map_to_device_control_updates() {
    let mut reader = PacketReader::default();
    assert_eq!(
        reader.process_packet(ParsedPacket::Control(RawDeviceControl::StopAll)),
        PacketProcessResult::EffectUpdates(vec![EffectUpdate::DeviceControl(DeviceControlCommand::StopAll)])
    );
    assert_eq!(reader.process_packet(ParsedPacket::Control(RawDeviceControl::EnAct)), PacketProcessResult::Updated);
    assert_eq!(
        reader.process_packet(ParsedPacket::Other(RawPacketType::from_raw(99))),
        PacketProcessResult::Updated
    );
    assert_eq!(
        map_control_update(RawDeviceControl::DisAct),
        Some(EffectUpdate::DeviceControl(DeviceControlCommand::StopAll))
    );
    assert_eq!(
        map_control_update(RawDeviceControl::DevRst),
        Some(EffectUpdate::DeviceControl(DeviceControlCommand::Reset))
    );
    assert_eq!(map_control_update(RawDeviceControl::Unknown(42)), None);
}

#[test]
fn effect_kinds_follow_the_raw_types() {
    assert_eq!(map_effect_kind(RawEffectType::from_raw(4)), EffectKind::Sine);
    assert_eq!(map_effect_kind(RawEffectType::from_raw(8)), EffectKind::Spring);
    assert_eq!(map_effect_kind(RawEffectType::from_raw(77)), EffectKind::Unknown(77));
}

#[test]
fn metadata_gain_matches_rounded_float_scaling_for_every_raw_gain() {
    for raw_gain in 0..=u8::MAX {
        let expected = ((raw_gain as f32 / 255.0) * 10_000.0).round() as i32;
        let metadata = effect_metadata(effect_report(1, raw_gain));
        assert_eq!(metadata.gain, expected, "raw gain {raw_gain}");
        assert_eq!(metadata.raw_gain, raw_gain);
    }
    let infinite = RawEffReport { duration: u16::MAX, triger_btn: 3, ..RawEffReport::default() };
    let metadata = effect_metadata(infinite);
    assert_eq!(metadata.duration_ms, -1);
    assert_eq!(metadata.trigger_button, 3);
}
