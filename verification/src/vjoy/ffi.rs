use vstd::prelude::*;

verus! {

/// Status code that the packet parsers of the vJoy interface return on success.
pub const ERROR_SUCCESS: u32 = 0;

/// The type of a force-feedback packet.
#[derive(Debug, Clone, Copy, PartialEq, Eq, Structural)]
pub enum RawPacketType {
    EffRep,
    EnvRep,
    CondRep,
    PridRep,
    ConstRep,
    RampRep,
    CstmRep,
    SmplRep,
    EfOpRep,
    BlkFrRep,
    CtrlRep,
    GainRep,
    SetCRep,
    NewEfRep,
    BlkLdRep,
    PoolRep,
    Unknown(i32),
}

impl RawPacketType {
    pub open spec fn from_raw_spec(raw: i32) -> RawPacketType {
        if raw == 1 {
            RawPacketType::EffRep
        } else if raw == 2 {
            RawPacketType::EnvRep
        } else if raw == 3 {
            RawPacketType::CondRep
        } else if raw == 4 {
            RawPacketType::PridRep
        } else if raw == 5 {
            RawPacketType::ConstRep
        } else if raw == 6 {
            RawPacketType::RampRep
        } else if raw == 7 {
            RawPacketType::CstmRep
        } else if raw == 8 {
            RawPacketType::SmplRep
        } else if raw == 10 {
            RawPacketType::EfOpRep
        } else if raw == 11 {
            RawPacketType::BlkFrRep
        } else if raw == 12 {
            RawPacketType::CtrlRep
        } else if raw == 13 {
            RawPacketType::GainRep
        } else if raw == 14 {
            RawPacketType::SetCRep
        } else if raw == 17 {
            RawPacketType::NewEfRep
        } else if raw == 18 {
            RawPacketType::BlkLdRep
        } else if raw == 19 {
            RawPacketType::PoolRep
        } else {
            RawPacketType::Unknown(raw)
        }
    }

    pub fn from_raw(raw: i32) -> (r: Self)
        ensures
            r == Self::from_raw_spec(raw),
    {
        match raw {
            1 => Self::EffRep,
            2 => Self::EnvRep,
            3 => Self::CondRep,
            4 => Self::PridRep,
            5 => Self::ConstRep,
            6 => Self::RampRep,
            7 => Self::CstmRep,
            8 => Self::SmplRep,
            10 => Self::EfOpRep,
            11 => Self::BlkFrRep,
            12 => Self::CtrlRep,
            13 => Self::GainRep,
            14 => Self::SetCRep,
            17 => Self::NewEfRep,
            18 => Self::BlkLdRep,
            19 => Self::PoolRep,
            _ => Self::Unknown(raw),
        }
    }
}

/// The effect type named in an effect report.
#[derive(Debug, Clone, Copy, PartialEq, Eq, Structural)]
pub enum RawEffectType {
    NoEffect,
    Constant,
    Ramp,
    Square,
    Sine,
    Triangle,
    SawUp,
    SawDown,
    Spring,
    Damper,
    Inertia,
    Friction,
    Custom,
    Unknown(i32),
}

impl RawEffectType {
    pub open spec fn from_raw_spec(raw: i32) -> RawEffectType {
        if raw == 0 {
            RawEffectType::NoEffect
        } else if raw == 1 {
            RawEffectType::Constant
        } else if raw == 2 {
            RawEffectType::Ramp
        } else if raw == 3 {
            RawEffectType::Square
        } else if raw == 4 {
            RawEffectType::Sine
        } else if raw == 5 {
            RawEffectType::Triangle
        } else if raw == 6 {
            RawEffectType::SawUp
        } else if raw == 7 {
            RawEffectType::SawDown
        } else if raw == 8 {
            RawEffectType::Spring
        } else if raw == 9 {
            RawEffectType::Damper
        } else if raw == 10 {
            RawEffectType::Inertia
        } else if raw == 11 {
            RawEffectType::Friction
        } else if raw == 12 {
            RawEffectType::Custom
        } else {
            RawEffectType::Unknown(raw)
        }
    }

    pub fn from_raw(raw: i32) -> (r: Self)
        ensures
            r == Self::from_raw_spec(raw),
    {
        match raw {
            0 => Self::NoEffect,
            1 => Self::Constant,
            2 => Self::Ramp,
            3 => Self::Square,
            4 => Self::Sine,
            5 => Self::Triangle,
            6 => Self::SawUp,
            7 => Self::SawDown,
            8 => Self::Spring,
            9 => Self::Damper,
            10 => Self::Inertia,
            11 => Self::Friction,
            12 => Self::Custom,
            _ => Self::Unknown(raw),
        }
    }
}

/// A device-control request in a control packet.
#[derive(Debug, Clone, Copy, PartialEq, Eq, Structural)]
pub enum RawDeviceControl {
    EnAct,
    DisAct,
    StopAll,
    DevRst,
    DevPause,
    DevCont,
    Unknown(i32),
}

impl RawDeviceControl {
    pub open spec fn from_raw_spec(raw: i32) -> RawDeviceControl {
        if raw == 1 {
            RawDeviceControl::EnAct
        } else if raw == 2 {
            RawDeviceControl::DisAct
        } else if raw == 3 {
            RawDeviceControl::StopAll
        } else if raw == 4 {
            RawDeviceControl::DevRst
        } else if raw == 5 {
            RawDeviceControl::DevPause
        } else if raw == 6 {
            RawDeviceControl::DevCont
        } else {
            RawDeviceControl::Unknown(raw)
        }
    }

    pub fn from_raw(raw: i32) -> (r: Self)
        ensures
            r == Self::from_raw_spec(raw),
    {
        match raw {
            1 => Self::EnAct,
            2 => Self::DisAct,
            3 => Self::StopAll,
            4 => Self::DevRst,
            5 => Self::DevPause,
            6 => Self::DevCont,
            _ => Self::Unknown(raw),
        }
    }
}

/// The operation named in an effect-operation report.
#[derive(Debug, Clone, Copy, PartialEq, Eq, Structural)]
pub enum RawEffectOperation {
    Start,
    Solo,
    Stop,
    Unknown(i32),
}

impl RawEffectOperation {
    pub open spec fn from_raw_spec(raw: i32) -> RawEffectOperation {
        if raw == 1 {
            RawEffectOperation::Start
        } else if raw == 2 {
            RawEffectOperation::Solo
        } else if raw == 3 {
            RawEffectOperation::Stop
        } else {
            RawEffectOperation::Unknown(raw)
        }
    }

    pub fn from_raw(raw: i32) -> (r: Self)
        ensures
            r == Self::from_raw_spec(raw),
    {
        match raw {
            1 => Self::Start,
            2 => Self::Solo,
            3 => Self::Stop,
            _ => Self::Unknown(raw),
        }
    }
}

/// The joystick position block that the vJoy driver accepts.
#[derive(Debug, Clone, Copy)]
pub struct RawJoystickState {
    pub b_device: u8,
    pub throttle: i32,
    pub rudder: i32,
    pub aileron: i32,
    pub axis_x: i32,
    pub axis_y: i32,
    pub axis_z: i32,
    pub axis_x_rot: i32,
    pub axis_y_rot: i32,
    pub axis_z_rot: i32,
    pub slider: i32,
    pub dial: i32,
    pub wheel: i32,
    pub axis_vx: i32,
    pub axis_vy: i32,
    pub axis_vz: i32,
    pub axis_vbrx: i32,
    pub axis_vbry: i32,
    pub axis_vbrz: i32,
    pub buttons: u32,
    pub b_hats: u32,
    pub b_hats_ex1: u32,
    pub b_hats_ex2: u32,
    pub b_hats_ex3: u32,
    pub buttons_ex1: u32,
    pub buttons_ex2: u32,
    pub buttons_ex3: u32,
}

/// A constant-force report.
#[derive(Debug, Clone, Copy)]
pub struct RawEffConstant {
    pub effect_block_index: u8,
    pub _pad0: [u8; 3],
    pub magnitude: i16,
    pub _pad1: [u8; 2],
}

impl RawEffConstant {
    /// Two reports are the same when their block index and magnitude agree; padding is ignored.
    pub open spec fn same_as(self, other: Self) -> bool {
        self.effect_block_index == other.effect_block_index && self.magnitude == other.magnitude
    }

    pub fn semantic_eq(self, other: Self) -> (r: bool)
        ensures
            r == self.same_as(other),
    {
        self.effect_block_index == other.effect_block_index && self.magnitude == other.magnitude
    }
}

impl Default for RawEffConstant {
    fn default() -> (r: Self)
        ensures
            r.effect_block_index == 0 && r.magnitude == 0,
    {
        RawEffConstant { effect_block_index: 0, _pad0: [0; 3], magnitude: 0, _pad1: [0; 2] }
    }
}

/// An effect report.
#[derive(Debug, Clone, Copy)]
pub struct RawEffReport {
    pub effect_block_index: u8,
    pub _pad0: [u8; 3],
    pub effect_type_raw: i32,
    pub duration: u16,
    pub triger_rpt: u16,
    pub sample_prd: u16,
    pub gain: u8,
    pub triger_btn: u8,
    pub polar: u8,
    pub _pad1: [u8; 3],
    pub direction: u8,
    pub dir_y: u8,
    pub _pad2: [u8; 2],
}

impl RawEffReport {
    pub open spec fn effect_type_spec(self) -> RawEffectType {
        RawEffectType::from_raw_spec(self.effect_type_raw)
    }

    pub fn effect_type(self) -> (r: RawEffectType)
        ensures
            r == self.effect_type_spec(),
    {
        RawEffectType::from_raw(self.effect_type_raw)
    }

    /// Two reports are the same when every field but the padding agrees.
    pub open spec fn same_as(self, other: Self) -> bool {
        &&& self.effect_block_index == other.effect_block_index
        &&& self.effect_type_raw == other.effect_type_raw
        &&& self.duration == other.duration
        &&& self.triger_rpt == other.triger_rpt
        &&& self.sample_prd == other.sample_prd
        &&& self.gain == other.gain
        &&& self.triger_btn == other.triger_btn
        &&& self.polar == other.polar
        &&& self.direction == other.direction
        &&& self.dir_y == other.dir_y
    }

    pub fn semantic_eq(self, other: Self) -> (r: bool)
        ensures
            r == self.same_as(other),
    {
        self.effect_block_index == other.effect_block_index && self.effect_type_raw
            == other.effect_type_raw && self.duration == other.duration && self.triger_rpt
            == other.triger_rpt && self.sample_prd == other.sample_prd && self.gain == other.gain
            && self.triger_btn == other.triger_btn && self.polar == other.polar && self.direction
            == other.direction && self.dir_y == other.dir_y
    }
}

impl Default for RawEffReport {
    fn default() -> (r: Self)
        ensures
            r.effect_block_index == 0 && r.effect_type_raw == 0 && r.duration == 0
                && r.triger_rpt == 0 && r.sample_prd == 0 && r.gain == 0 && r.triger_btn == 0
                && r.polar == 0 && r.direction == 0 && r.dir_y == 0,
    {
        RawEffReport {
            effect_block_index: 0,
            _pad0: [0; 3],
            effect_type_raw: 0,
            duration: 0,
            triger_rpt: 0,
            sample_prd: 0,
            gain: 0,
            triger_btn: 0,
            polar: 0,
            _pad1: [0; 3],
            direction: 0,
            dir_y: 0,
            _pad2: [0; 2],
        }
    }
}

/// An effect-operation report.
#[derive(Debug, Clone, Copy)]
pub struct RawEffOp {
    pub effect_block_index: u8,
    pub _pad0: [u8; 3],
    pub effect_op_raw: i32,
    pub loop_count: u8,
    pub _pad1: [u8; 3],
}

impl RawEffOp {
    pub open spec fn effect_op_spec(self) -> RawEffectOperation {
        RawEffectOperation::from_raw_spec(self.effect_op_raw)
    }

    pub fn effect_op(self) -> (r: RawEffectOperation)
        ensures
            r == self.effect_op_spec(),
    {
        RawEffectOperation::from_raw(self.effect_op_raw)
    }
}

impl Default for RawEffOp {
    fn default() -> (r: Self)
        ensures
            r.effect_block_index == 0 && r.effect_op_raw == 0 && r.loop_count == 0,
    {
        RawEffOp { effect_block_index: 0, _pad0: [0; 3], effect_op_raw: 0, loop_count: 0, _pad1: [0; 3] }
    }
}

/// A condition report.
#[derive(Debug, Clone, Copy)]
pub struct RawEffCond {
    pub effect_block_index: u8,
    pub _pad0: [u8; 3],
    pub is_y: u8,
    pub _pad1: [u8; 3],
    pub center_point_offset: i16,
    pub _pad2: [u8; 2],
    pub pos_coeff: i16,
    pub _pad3: [u8; 2],
    pub neg_coeff: i16,
    pub _pad4: [u8; 2],
    pub pos_satur: u32,
    pub neg_satur: u32,
    pub dead_band: i32,
}

impl RawEffCond {
    /// Two reports are the same when every field but the padding agrees.
    pub open spec fn same_as(self, other: Self) -> bool {
        &&& self.effect_block_index == other.effect_block_index
        &&& self.is_y == other.is_y
        &&& self.center_point_offset == other.center_point_offset
        &&& self.pos_coeff == other.pos_coeff
        &&& self.neg_coeff == other.neg_coeff
        &&& self.pos_satur == other.pos_satur
        &&& self.neg_satur == other.neg_satur
        &&& self.dead_band == other.dead_band
    }

    pub fn semantic_eq(self, other: Self) -> (r: bool)
        ensures
            r == self.same_as(other),
    {
        self.effect_block_index == other.effect_block_index && self.is_y == other.is_y
            && self.center_point_offset == other.center_point_offset && self.pos_coeff
            == other.pos_coeff && self.neg_coeff == other.neg_coeff && self.pos_satur
            == other.pos_satur && self.neg_satur == other.neg_satur && self.dead_band
            == other.dead_band
    }
}

impl Default for RawEffCond {
    fn default() -> (r: Self)
        ensures
            r.effect_block_index == 0 && r.is_y == 0 && r.center_point_offset == 0
                && r.pos_coeff == 0 && r.neg_coeff == 0 && r.pos_satur == 0 && r.neg_satur == 0
                && r.dead_band == 0,
    {
        RawEffCond {
            effect_block_index: 0,
            _pad0: [0; 3],
            is_y: 0,
            _pad1: [0; 3],
            center_point_offset: 0,
            _pad2: [0; 2],
            pos_coeff: 0,
            _pad3: [0; 2],
            neg_coeff: 0,
            _pad4: [0; 2],
            pos_satur: 0,
            neg_satur: 0,
            dead_band: 0,
        }
    }
}

/// An envelope report.
#[derive(Debug, Clone, Copy)]
pub struct RawEffEnvelope {
    pub effect_block_index: u8,
    pub _pad0: [u8; 3],
    pub attack_level: u16,
    pub _pad1: [u8; 2],
    pub fade_level: u16,
    pub _pad2: [u8; 2],
    pub attack_time: u32,
    pub fade_time: u32,
}

impl RawEffEnvelope {
    /// Two reports are the same when every field but the padding agrees.
    pub open spec fn same_as(self, other: Self) -> bool {
        &&& self.effect_block_index == other.effect_block_index
        &&& self.attack_level == other.attack_level
        &&& self.fade_level == other.fade_level
        &&& self.attack_time == other.attack_time
        &&& self.fade_time == other.fade_time
    }

    pub fn semantic_eq(self, other: Self) -> (r: bool)
        ensures
            r == self.same_as(other),
    {
        self.effect_block_index == other.effect_block_index && self.attack_level
            == other.attack_level && self.fade_level == other.fade_level && self.attack_time
            == other.attack_time && self.fade_time == other.fade_time
    }
}

impl Default for RawEffEnvelope {
    fn default() -> (r: Self)
        ensures
            r.effect_block_index == 0 && r.attack_level == 0 && r.fade_level == 0
                && r.attack_time == 0 && r.fade_time == 0,
    {
        RawEffEnvelope {
            effect_block_index: 0,
            _pad0: [0; 3],
            attack_level: 0,
            _pad1: [0; 2],
            fade_level: 0,
            _pad2: [0; 2],
            attack_time: 0,
            fade_time: 0,
        }
    }
}

/// A periodic-effect report.
#[derive(Debug, Clone, Copy)]
pub struct RawEffPeriod {
    pub effect_block_index: u8,
    pub _pad0: [u8; 3],
    pub magnitude: u32,
    pub offset: i16,
    pub _pad1: [u8; 2],
    pub phase: u32,
    pub period: u32,
}

impl RawEffPeriod {
    /// Two reports are the same when every field but the padding agrees.
    pub open spec fn same_as(self, other: Self) -> bool {
        &&& self.effect_block_index == other.effect_block_index
        &&& self.magnitude == other.magnitude
        &&& self.offset == other.offset
        &&& self.phase == other.phase
        &&& self.period == other.period
    }

    pub fn semantic_eq(self, other: Self) -> (r: bool)
        ensures
            r == self.same_as(other),
    {
        self.effect_block_index == other.effect_block_index && self.magnitude == other.magnitude
            && self.offset == other.offset && self.phase == other.phase && self.period
            == other.period
    }
}

impl Default for RawEffPeriod {
    fn default() -> (r: Self)
        ensures
            r.effect_block_index == 0 && r.magnitude == 0 && r.offset == 0 && r.phase == 0
                && r.period == 0,
    {
        RawEffPeriod {
            effect_block_index: 0,
            _pad0: [0; 3],
            magnitude: 0,
            offset: 0,
            _pad1: [0; 2],
            phase: 0,
            period: 0,
        }
    }
}

/// A ramp-force report.
#[derive(Debug, Clone, Copy)]
pub struct RawEffRamp {
    pub effect_block_index: u8,
    pub _pad0: [u8; 3],
    pub start: i16,
    pub _pad1: [u8; 2],
    pub end: i16,
    pub _pad2: [u8; 2],
}

impl RawEffRamp {
    /// Two reports are the same when every field but the padding agrees.
    pub open spec fn same_as(self, other: Self) -> bool {
        self.effect_block_index == other.effect_block_index && self.start == other.start
            && self.end == other.end
    }

    pub fn semantic_eq(self, other: Self) -> (r: bool)
        ensures
            r == self.same_as(other),
    {
        self.effect_block_index == other.effect_block_index && self.start == other.start
            && self.end == other.end
    }
}

impl Default for RawEffRamp {
    fn default() -> (r: Self)
        ensures
            r.effect_block_index == 0 && r.start == 0 && r.end == 0,
    {
        RawEffRamp { effect_block_index: 0, _pad0: [0; 3], start: 0, _pad1: [0; 2], end: 0, _pad2: [0; 2] }
    }
}

/// Errors of the vJoy interface library.
#[derive(Debug)]
pub enum VJoyError {
    /// The interface library could not be loaded from any candidate location.
    LibraryLoad,
    /// A symbol is missing from the interface library; `message` describes the loader's error.
    SymbolLoad { symbol: &'static str, message: String },
    /// A packet parser returned a failure code.
    Parser { function: &'static str, code: u32 },
}

/// Success when a parser returned `ERROR_SUCCESS`, otherwise the parser error naming the
/// function and its code.
pub fn parse_status(function: &'static str, code: u32) -> (r: Result<(), VJoyError>)
    ensures
        code == ERROR_SUCCESS <==> r is Ok,
        r matches Err(e) ==> (e matches VJoyError::Parser { function: f, code: c } && f == function
            && c == code),
{
    if code == ERROR_SUCCESS {
        Ok(())
    } else {
        Err(VJoyError::Parser { function, code })
    }
}

} // verus!
