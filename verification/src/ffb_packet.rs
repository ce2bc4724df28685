use vstd::prelude::*;

use crate::domain::{DeviceControlCommand, EffectKind, EffectMetadata, EffectUpdate, GameEffect};
use crate::vjoy::ffi::{
    RawDeviceControl, RawEffCond, RawEffConstant, RawEffEnvelope, RawEffOp, RawEffPeriod,
    RawEffRamp, RawEffReport, RawEffectOperation, RawEffectType, RawPacketType,
};

verus! {

/// The latest report of each kind that the reader has seen.
#[derive(Debug, Clone, Copy)]
pub struct RawPacketState {
    pub effect_report: Option<RawEffReport>,
    pub envelope_report: Option<RawEffEnvelope>,
    pub conditional_report: Option<RawEffCond>,
    pub periodic_report: Option<RawEffPeriod>,
    pub constant_force_report: Option<RawEffConstant>,
    pub ramp_force_report: Option<RawEffRamp>,
    pub op: Option<RawEffOp>,
    pub gain: Option<u8>,
}

impl RawPacketState {
    pub open spec fn empty() -> RawPacketState {
        RawPacketState {
            effect_report: None,
            envelope_report: None,
            conditional_report: None,
            periodic_report: None,
            constant_force_report: None,
            ramp_force_report: None,
            op: None,
            gain: None,
        }
    }
}

impl Default for RawPacketState {
    fn default() -> (r: Self)
        ensures
            r == RawPacketState::empty(),
    {
        RawPacketState {
            effect_report: None,
            envelope_report: None,
            conditional_report: None,
            periodic_report: None,
            constant_force_report: None,
            ramp_force_report: None,
            op: None,
            gain: None,
        }
    }
}

/// A force-feedback packet after the interface library parsed it.
#[derive(Debug, Clone, Copy)]
pub enum ParsedPacket {
    Effect(RawEffReport),
    Envelope(RawEffEnvelope),
    Condition(RawEffCond),
    Periodic(RawEffPeriod),
    Constant(RawEffConstant),
    Ramp(RawEffRamp),
    Operation(RawEffOp),
    Gain(u8),
    Control(RawDeviceControl),
    /// A packet of a type that carries nothing the bridge uses.
    Other(RawPacketType),
}

/// What processing a packet produced.
#[derive(Debug, Clone, PartialEq, Eq)]
pub enum PacketProcessResult {
    IgnoredDuplicate,
    Updated,
    EffectUpdates(Vec<EffectUpdate>),
}

/// The mathematical content of a `PacketProcessResult`.
pub enum PacketOutcome {
    IgnoredDuplicate,
    Updated,
    EffectUpdates(Seq<EffectUpdate>),
}

impl View for PacketProcessResult {
    type V = PacketOutcome;

    open spec fn view(&self) -> PacketOutcome {
        match self {
            PacketProcessResult::IgnoredDuplicate => PacketOutcome::IgnoredDuplicate,
            PacketProcessResult::Updated => PacketOutcome::Updated,
            PacketProcessResult::EffectUpdates(v) => PacketOutcome::EffectUpdates(v@),
        }
    }
}

/// Everything a packet reader remembers: the current reports and, for deduplication, the last
/// report of each kind.
pub struct PacketReaderView {
    pub current: RawPacketState,
    pub old_effect_report: Option<RawEffReport>,
    pub old_conditional_report: Option<RawEffCond>,
    pub old_periodic_report: Option<RawEffPeriod>,
    pub old_constant_force_report: Option<RawEffConstant>,
    pub old_envelope_report: Option<RawEffEnvelope>,
    pub old_ramp_force_report: Option<RawEffRamp>,
    pub old_gain: Option<u8>,
}

/// Decodes the vJoy force-feedback packet stream into effect updates, dropping repeated reports.
#[derive(Debug)]
pub struct PacketReader {
    current: RawPacketState,
    old_effect_report: Option<RawEffReport>,
    old_conditional_report: Option<RawEffCond>,
    old_periodic_report: Option<RawEffPeriod>,
    old_constant_force_report: Option<RawEffConstant>,
    old_envelope_report: Option<RawEffEnvelope>,
    old_ramp_force_report: Option<RawEffRamp>,
    old_gain: Option<u8>,
}

impl View for PacketReader {
    type V = PacketReaderView;

    closed spec fn view(&self) -> PacketReaderView {
        PacketReaderView {
            current: self.current,
            old_effect_report: self.old_effect_report,
            old_conditional_report: self.old_conditional_report,
            old_periodic_report: self.old_periodic_report,
            old_constant_force_report: self.old_constant_force_report,
            old_envelope_report: self.old_envelope_report,
            old_ramp_force_report: self.old_ramp_force_report,
            old_gain: self.old_gain,
        }
    }
}

impl PacketReaderView {
    pub open spec fn initial() -> PacketReaderView {
        PacketReaderView {
            current: RawPacketState::empty(),
            old_effect_report: None,
            old_conditional_report: None,
            old_periodic_report: None,
            old_constant_force_report: None,
            old_envelope_report: None,
            old_ramp_force_report: None,
            old_gain: None,
        }
    }

    /// The updates that the current reports describe: a stop of the effect's kind when the last
    /// operation was a stop, then the effect itself when the report its kind needs is present.
    pub open spec fn emitted_updates(current: RawPacketState) -> Seq<EffectUpdate> {
        match current.effect_report {
            None => Seq::empty(),
            Some(report) => {
                let kind = map_effect_kind_spec(report.effect_type_spec());
                let metadata = effect_metadata_spec(report);
                let stop: Seq<EffectUpdate> = if current.op matches Some(op) && op.effect_op_spec() is Stop {
                    seq![EffectUpdate::StopEffect(kind)]
                } else {
                    Seq::empty()
                };
                let apply: Seq<EffectUpdate> = if kind is Constant {
                    match current.constant_force_report {
                        Some(r) => seq![EffectUpdate::Apply(GameEffect::Constant {
                            metadata,
                            magnitude: r.magnitude as i32,
                        })],
                        None => Seq::empty(),
                    }
                } else if kind.is_periodic_wave() {
                    match current.periodic_report {
                        Some(r) => seq![EffectUpdate::Apply(GameEffect::Periodic {
                            metadata,
                            magnitude: r.magnitude as i32,
                            offset: r.offset,
                            period: r.period as i32,
                            phase: r.phase as i32,
                        })],
                        None => Seq::empty(),
                    }
                } else if kind is Spring || kind is Damper || kind is Inertia || kind is Friction {
                    match current.conditional_report {
                        Some(r) => seq![EffectUpdate::Apply(GameEffect::Condition {
                            metadata,
                            kind,
                            dead_band: r.dead_band,
                            center_point_offset: r.center_point_offset,
                            positive_coefficient: r.pos_coeff as i32,
                            negative_coefficient: r.neg_coeff as i32,
                            positive_saturation: r.pos_satur as i32,
                            negative_saturation: r.neg_satur as i32,
                        })],
                        None => Seq::empty(),
                    }
                } else {
                    Seq::empty()
                };
                if kind is NoEffect {
                    Seq::empty()
                } else {
                    stop + apply
                }
            },
        }
    }

    /// `Updated` when the current reports describe nothing, otherwise their updates.
    pub open spec fn emit(current: RawPacketState) -> PacketOutcome {
        let updates = Self::emitted_updates(current);
        if updates.len() == 0 {
            PacketOutcome::Updated
        } else {
            PacketOutcome::EffectUpdates(updates)
        }
    }

    /// The reader's next state and its outcome for a packet.
    pub open spec fn step(self, packet: ParsedPacket) -> (PacketReaderView, PacketOutcome) {
        match packet {
            ParsedPacket::Effect(r) => if self.old_effect_report matches Some(o) && o.same_as(r) {
                (self, PacketOutcome::IgnoredDuplicate)
            } else {
                let current = RawPacketState { effect_report: Some(r), ..self.current };
                (
                    PacketReaderView { current, old_effect_report: Some(r), ..self },
                    Self::emit(current),
                )
            },
            ParsedPacket::Envelope(r) => if self.old_envelope_report matches Some(o) && o.same_as(r) {
                (self, PacketOutcome::IgnoredDuplicate)
            } else {
                let current = RawPacketState { envelope_report: Some(r), ..self.current };
                (
                    PacketReaderView { current, old_envelope_report: Some(r), ..self },
                    PacketOutcome::Updated,
                )
            },
            ParsedPacket::Condition(r) => if self.old_conditional_report matches Some(o)
                && o.same_as(r) {
                (self, PacketOutcome::IgnoredDuplicate)
            } else {
                let current = RawPacketState { conditional_report: Some(r), ..self.current };
                (
                    PacketReaderView { current, old_conditional_report: Some(r), ..self },
                    Self::emit(current),
                )
            },
            ParsedPacket::Periodic(r) => if self.old_periodic_report matches Some(o) && o.same_as(r) {
                (self, PacketOutcome::IgnoredDuplicate)
            } else {
                let current = RawPacketState { periodic_report: Some(r), ..self.current };
                (
                    PacketReaderView { current, old_periodic_report: Some(r), ..self },
                    Self::emit(current),
                )
            },
            ParsedPacket::Constant(r) => if self.old_constant_force_report matches Some(o)
                && o.same_as(r) {
                (self, PacketOutcome::IgnoredDuplicate)
            } else {
                let current = RawPacketState { constant_force_report: Some(r), ..self.current };
                (
                    PacketReaderView { current, old_constant_force_report: Some(r), ..self },
                    Self::emit(current),
                )
            },
            ParsedPacket::Ramp(r) => if self.old_ramp_force_report matches Some(o) && o.same_as(r) {
                (self, PacketOutcome::IgnoredDuplicate)
            } else {
                let current = RawPacketState { ramp_force_report: Some(r), ..self.current };
                (
                    PacketReaderView { current, old_ramp_force_report: Some(r), ..self },
                    PacketOutcome::Updated,
                )
            },
            ParsedPacket::Operation(r) => {
                let current = RawPacketState { op: Some(r), ..self.current };
                (PacketReaderView { current, ..self }, Self::emit(current))
            },
            ParsedPacket::Gain(g) => if self.old_gain == Some(g) {
                (self, PacketOutcome::IgnoredDuplicate)
            } else {
                let current = RawPacketState { gain: Some(g), ..self.current };
                (PacketReaderView { current, old_gain: Some(g), ..self }, PacketOutcome::Updated)
            },
            ParsedPacket::Control(c) => match map_control_update_spec(c) {
                Some(u) => (self, PacketOutcome::EffectUpdates(seq![u])),
                None => (self, PacketOutcome::Updated),
            },
            ParsedPacket::Other(_) => (self, PacketOutcome::Updated),
        }
    }

    /// Whether a packet is a report that the reader deduplicates.
    pub open spec fn is_deduplicated(packet: ParsedPacket) -> bool {
        !(packet is Operation || packet is Control || packet is Other)
    }
}

impl Default for PacketReader {
    fn default() -> (r: Self)
        ensures
            r@ == PacketReaderView::initial(),
    {
        PacketReader {
            current: RawPacketState::default(),
            old_effect_report: None,
            old_conditional_report: None,
            old_periodic_report: None,
            old_constant_force_report: None,
            old_envelope_report: None,
            old_ramp_force_report: None,
            old_gain: None,
        }
    }
}

impl PacketReader {
    /// Processes one parsed packet.
    pub fn process_packet(&mut self, packet: ParsedPacket) -> (r: PacketProcessResult)
        ensures
            (final(self)@, r@) == old(self)@.step(packet),
    {
        match packet {
            ParsedPacket::Effect(report) => {
                if let Some(old) = self.old_effect_report {
                    if old.semantic_eq(report) {
                        return PacketProcessResult::IgnoredDuplicate;
                    }
                }
                self.old_effect_report = Some(report);
                self.current.effect_report = Some(report);
                self.emit_current_updates()
            },
            ParsedPacket::Envelope(report) => {
                if let Some(old) = self.old_envelope_report {
                    if old.semantic_eq(report) {
                        return PacketProcessResult::IgnoredDuplicate;
                    }
                }
                self.old_envelope_report = Some(report);
                self.current.envelope_report = Some(report);
                PacketProcessResult::Updated
            },
            ParsedPacket::Condition(report) => {
                if let Some(old) = self.old_conditional_report {
                    if old.semantic_eq(report) {
                        return PacketProcessResult::IgnoredDuplicate;
                    }
                }
                self.old_conditional_report = Some(report);
                self.current.conditional_report = Some(report);
                self.emit_current_updates()
            },
            ParsedPacket::Periodic(report) => {
                if let Some(old) = self.old_periodic_report {
                    if old.semantic_eq(report) {
                        return PacketProcessResult::IgnoredDuplicate;
                    }
                }
                self.old_periodic_report = Some(report);
                self.current.periodic_report = Some(report);
                self.emit_current_updates()
            },
            ParsedPacket::Constant(report) => {
                if let Some(old) = self.old_constant_force_report {
                    if old.semantic_eq(report) {
                        return PacketProcessResult::IgnoredDuplicate;
                    }
                }
                self.old_constant_force_report = Some(report);
                self.current.constant_force_report = Some(report);
                self.emit_current_updates()
            },
            ParsedPacket::Ramp(report) => {
                if let Some(old) = self.old_ramp_force_report {
                    if old.semantic_eq(report) {
                        return PacketProcessResult::IgnoredDuplicate;
                    }
                }
                self.old_ramp_force_report = Some(report);
                self.current.ramp_force_report = Some(report);
                PacketProcessResult::Updated
            },
            ParsedPacket::Operation(report) => {
                self.current.op = Some(report);
                self.emit_current_updates()
            },
            ParsedPacket::Gain(gain) => {
                if self.old_gain == Some(gain) {
                    return PacketProcessResult::IgnoredDuplicate;
                }
                self.old_gain = Some(gain);
                self.current.gain = Some(gain);
                PacketProcessResult::Updated
            },
            ParsedPacket::Control(control) => match map_control_update(control) {
                Some(update) => {
                    let mut updates = Vec::new();
                    updates.push(update);
                    assert(updates@ =~= seq![update]);
                    PacketProcessResult::EffectUpdates(updates)
                },
                None => PacketProcessResult::Updated,
            },
            ParsedPacket::Other(_) => PacketProcessResult::Updated,
        }
    }

    fn emit_current_updates(&self) -> (r: PacketProcessResult)
        ensures
            r@ == PacketReaderView::emit(self.current),
    {
        let effect_report = match self.current.effect_report {
            Some(report) => report,
            None => {
                return PacketProcessResult::Updated;
            },
        };
        let effect_kind = map_effect_kind(effect_report.effect_type());
        if let EffectKind::NoEffect = effect_kind {
            return PacketProcessResult::Updated;
        }
        let mut updates: Vec<EffectUpdate> = Vec::new();
        let stopping = match self.current.op {
            Some(op) => match op.effect_op() {
                RawEffectOperation::Stop => true,
                _ => false,
            },
            None => false,
        };
        if stopping {
            updates.push(EffectUpdate::StopEffect(effect_kind));
        }
        let ghost stop_part = updates@;
        let metadata = effect_metadata(effect_report);
        match effect_kind {
            EffectKind::Constant => {
                if let Some(report) = self.current.constant_force_report {
                    updates.push(
                        EffectUpdate::Apply(
                            GameEffect::Constant { metadata, magnitude: report.magnitude as i32 },
                        ),
                    );
                }
            },
            EffectKind::Sine
            | EffectKind::Square
            | EffectKind::Triangle
            | EffectKind::SawUp
            | EffectKind::SawDown => {
                if let Some(report) = self.current.periodic_report {
                    updates.push(
                        EffectUpdate::Apply(
                            GameEffect::Periodic {
                                metadata,
                                magnitude: report.magnitude as i32,
                                offset: report.offset,
                                period: report.period as i32,
                                phase: report.phase as i32,
                            },
                        ),
                    );
                }
            },
            EffectKind::Spring | EffectKind::Damper | EffectKind::Inertia | EffectKind::Friction => {
                if let Some(report) = self.current.conditional_report {
                    updates.push(
                        EffectUpdate::Apply(
                            GameEffect::Condition {
                                metadata,
                                kind: effect_kind,
                                dead_band: report.dead_band,
                                center_point_offset: report.center_point_offset,
                                positive_coefficient: report.pos_coeff as i32,
                                negative_coefficient: report.neg_coeff as i32,
                                positive_saturation: report.pos_satur as i32,
                                negative_saturation: report.neg_satur as i32,
                            },
                        ),
                    );
                }
            },
            _ => {},
        }
        assert(updates@ =~= PacketReaderView::emitted_updates(self.current));
        if updates.len() == 0 {
            PacketProcessResult::Updated
        } else {
            PacketProcessResult::EffectUpdates(updates)
        }
    }
}

/// The effect update that a device-control request asks for, if any.
pub open spec fn map_control_update_spec(control: RawDeviceControl) -> Option<EffectUpdate> {
    match control {
        RawDeviceControl::StopAll | RawDeviceControl::DisAct => Some(
            EffectUpdate::DeviceControl(DeviceControlCommand::StopAll),
        ),
        RawDeviceControl::DevRst => Some(EffectUpdate::DeviceControl(DeviceControlCommand::Reset)),
        RawDeviceControl::DevPause => Some(EffectUpdate::DeviceControl(DeviceControlCommand::Pause)),
        RawDeviceControl::DevCont => Some(
            EffectUpdate::DeviceControl(DeviceControlCommand::Continue),
        ),
        RawDeviceControl::EnAct | RawDeviceControl::Unknown(_) => None,
    }
}

pub fn map_control_update(control: RawDeviceControl) -> (r: Option<EffectUpdate>)
    ensures
        r == map_control_update_spec(control),
{
    match control {
        RawDeviceControl::StopAll | RawDeviceControl::DisAct => Some(
            EffectUpdate::DeviceControl(DeviceControlCommand::StopAll),
        ),
        RawDeviceControl::DevRst => Some(EffectUpdate::DeviceControl(DeviceControlCommand::Reset)),
        RawDeviceControl::DevPause => Some(EffectUpdate::DeviceControl(DeviceControlCommand::Pause)),
        RawDeviceControl::DevCont => Some(
            EffectUpdate::DeviceControl(DeviceControlCommand::Continue),
        ),
        RawDeviceControl::EnAct | RawDeviceControl::Unknown(_) => None,
    }
}

/// The effect kind that a raw effect type names.
pub open spec fn map_effect_kind_spec(effect_type: RawEffectType) -> EffectKind {
    match effect_type {
        RawEffectType::NoEffect => EffectKind::NoEffect,
        RawEffectType::Constant => EffectKind::Constant,
        RawEffectType::Ramp => EffectKind::Ramp,
        RawEffectType::Square => EffectKind::Square,
        RawEffectType::Sine => EffectKind::Sine,
        RawEffectType::Triangle => EffectKind::Triangle,
        RawEffectType::SawUp => EffectKind::SawUp,
        RawEffectType::SawDown => EffectKind::SawDown,
        RawEffectType::Spring => EffectKind::Spring,
        RawEffectType::Damper => EffectKind::Damper,
        RawEffectType::Inertia => EffectKind::Inertia,
        RawEffectType::Friction => EffectKind::Friction,
        RawEffectType::Custom => EffectKind::Custom,
        RawEffectType::Unknown(raw) => EffectKind::Unknown(raw),
    }
}

pub fn map_effect_kind(effect_type: RawEffectType) -> (r: EffectKind)
    ensures
        r == map_effect_kind_spec(effect_type),
{
    match effect_type {
        RawEffectType::NoEffect => EffectKind::NoEffect,
        RawEffectType::Constant => EffectKind::Constant,
        RawEffectType::Ramp => EffectKind::Ramp,
        RawEffectType::Square => EffectKind::Square,
        RawEffectType::Sine => EffectKind::Sine,
        RawEffectType::Triangle => EffectKind::Triangle,
        RawEffectType::SawUp => EffectKind::SawUp,
        RawEffectType::SawDown => EffectKind::SawDown,
        RawEffectType::Spring => EffectKind::Spring,
        RawEffectType::Damper => EffectKind::Damper,
        RawEffectType::Inertia => EffectKind::Inertia,
        RawEffectType::Friction => EffectKind::Friction,
        RawEffectType::Custom => EffectKind::Custom,
        RawEffectType::Unknown(raw) => EffectKind::Unknown(raw),
    }
}

/// `raw_gain` rescaled from `0..=255` to `0..=10000`, rounded to the nearest integer.
/// (No value of `raw_gain` falls exactly halfway between two integers.)
pub open spec fn scaled_gain(raw_gain: u8) -> int {
    (raw_gain * 20_000 + 255) / 510
}

/// The metadata of an effect report: `u16::MAX` as duration means infinite (-1), `u8::MAX` as
/// trigger button means none (-1), and the gain is rescaled to `0..=10000`.
pub open spec fn effect_metadata_spec(report: RawEffReport) -> EffectMetadata {
    EffectMetadata {
        duration_ms: if report.duration == u16::MAX {
            -1i32
        } else {
            report.duration as i32
        },
        gain: scaled_gain(report.gain) as i32,
        raw_gain: report.gain,
        direction: report.direction,
        sample_period: report.sample_prd,
        trigger_button: if report.triger_btn == u8::MAX {
            -1i32
        } else {
            report.triger_btn as i32
        },
        trigger_repeat_interval: report.triger_rpt,
    }
}

pub fn effect_metadata(report: RawEffReport) -> (r: EffectMetadata)
    ensures
        r == effect_metadata_spec(report),
        0 <= r.gain <= 10_000,
{
    let duration_ms: i32 = if report.duration == u16::MAX {
        -1
    } else {
        report.duration as i32
    };
    let gain: i32 = ((report.gain as i32) * 20_000 + 255) / 510;
    let trigger_button: i32 = if report.triger_btn == u8::MAX {
        -1
    } else {
        report.triger_btn as i32
    };
    EffectMetadata {
        duration_ms,
        gain,
        raw_gain: report.gain,
        direction: report.direction,
        sample_period: report.sample_prd,
        trigger_button,
        trigger_repeat_interval: report.triger_rpt,
    }
}

/// A report that repeats the one the reader has just taken is ignored and leaves the reader as
/// it was; operation, control and other packets are never treated as repeats.
pub proof fn lemma_repeated_report_is_ignored(state: PacketReaderView, packet: ParsedPacket)
    requires
        PacketReaderView::is_deduplicated(packet),
    ensures
        ({
            let (next, _) = state.step(packet);
            next.step(packet) == (next, PacketOutcome::IgnoredDuplicate)
        }),
{
}

/// Control and unknown packets never change the reader's state.
pub proof fn lemma_control_packets_keep_state(state: PacketReaderView, packet: ParsedPacket)
    requires
        packet is Control || packet is Other,
    ensures
        state.step(packet).0 == state,
{
}

/// An operation packet is never reported as a duplicate, and a stop operation on a known effect
/// always produces a stop of that effect's kind as its first update.
pub proof fn lemma_stop_operation_emits_stop(state: PacketReaderView, op: RawEffOp, report: RawEffReport)
    requires
        op.effect_op_spec() is Stop,
        state.current.effect_report == Some(report),
        !(map_effect_kind_spec(report.effect_type_spec()) is NoEffect),
    ensures
        state.step(ParsedPacket::Operation(op)).1 matches PacketOutcome::EffectUpdates(u) && u.len()
            >= 1 && u[0] == EffectUpdate::StopEffect(map_effect_kind_spec(report.effect_type_spec())),
{
}

/// The decoded effect kind names the same effect as the raw effect type: each raw type maps to
/// the kind of the same name and to no other, an unknown raw code is passed on unchanged, and
/// two different raw types never decode to the same kind.
pub proof fn lemma_effect_kind_names_the_raw_type(effect_type: RawEffectType, other: RawEffectType)
    ensures
        ({
            let kind = map_effect_kind_spec(effect_type);
            &&& (kind is NoEffect) <==> (effect_type is NoEffect)
            &&& (kind is Constant) <==> (effect_type is Constant)
            &&& (kind is Ramp) <==> (effect_type is Ramp)
            &&& (kind is Square) <==> (effect_type is Square)
            &&& (kind is Sine) <==> (effect_type is Sine)
            &&& (kind is Triangle) <==> (effect_type is Triangle)
            &&& (kind is SawUp) <==> (effect_type is SawUp)
            &&& (kind is SawDown) <==> (effect_type is SawDown)
            &&& (kind is Spring) <==> (effect_type is Spring)
            &&& (kind is Damper) <==> (effect_type is Damper)
            &&& (kind is Inertia) <==> (effect_type is Inertia)
            &&& (kind is Friction) <==> (effect_type is Friction)
            &&& (kind is Custom) <==> (effect_type is Custom)
            &&& (kind is Unknown) <==> (effect_type is Unknown)
            &&& effect_type matches RawEffectType::Unknown(code) ==> kind == EffectKind::Unknown(
                code,
            )
        }),
        map_effect_kind_spec(effect_type) == map_effect_kind_spec(other) ==> effect_type == other,
{
}

} // verus!
