use vstd::prelude::*;

verus! {

/// Device-wide control requests carried by force-feedback packets.
#[derive(Debug, Clone, Copy, PartialEq, Eq, Structural)]
pub enum DeviceControlCommand {
    Reset,
    StopAll,
    Pause,
    Continue,
}

/// The kind of a force-feedback effect as named by the game.
#[derive(Debug, Clone, Copy, PartialEq, Eq, Structural)]
pub enum EffectKind {
    NoEffect,
    Constant,
    Ramp,
    Square,
    Sine,
    Triangle,
    SawUp,
    SawDown,
    Spring,
    Damper,
    Inertia,
    Friction,
    Custom,
    Unknown(i32),
}

impl EffectKind {
    /// The periodic wave shapes that share the wheel's periodic channel.
    pub open spec fn is_periodic_wave(self) -> bool {
        self is Sine || self is Square || self is Triangle || self is SawUp || self is SawDown
    }
}

/// Parameters shared by every effect report.
#[derive(Debug, Clone, Copy, PartialEq, Eq, Structural)]
pub struct EffectMetadata {
    pub duration_ms: i32,
    pub gain: i32,
    pub raw_gain: u8,
    pub direction: u8,
    pub sample_period: u16,
    pub trigger_button: i32,
    pub trigger_repeat_interval: u16,
}

/// An effect as the game asked for it.
#[derive(Debug, Clone, Copy, PartialEq, Eq, Structural)]
pub enum GameEffect {
    Constant { metadata: EffectMetadata, magnitude: i32 },
    Periodic { metadata: EffectMetadata, magnitude: i32, offset: i16, period: i32, phase: i32 },
    Condition {
        metadata: EffectMetadata,
        kind: EffectKind,
        dead_band: i32,
        center_point_offset: i16,
        positive_coefficient: i32,
        negative_coefficient: i32,
        positive_saturation: i32,
        negative_saturation: i32,
    },
}

/// A normalized update decoded from the packet stream.
#[derive(Debug, Clone, Copy, PartialEq, Eq, Structural)]
pub enum EffectUpdate {
    Ignore,
    DeviceControl(DeviceControlCommand),
    StopEffect(EffectKind),
    Apply(GameEffect),
}

#[derive(Debug, Clone, Copy, PartialEq, Eq, Structural)]
pub struct ConstantCommand {
    pub metadata: EffectMetadata,
    pub magnitude: i32,
}

#[derive(Debug, Clone, Copy, PartialEq, Eq, Structural)]
pub struct PeriodicCommand {
    pub metadata: EffectMetadata,
    pub magnitude: i32,
    pub offset: i16,
    pub period: i32,
    pub phase: i32,
}

#[derive(Debug, Clone, Copy, PartialEq, Eq, Structural)]
pub struct ConditionCommand {
    pub metadata: EffectMetadata,
    pub kind: EffectKind,
    pub dead_band: i32,
    pub center_point_offset: i16,
    pub positive_coefficient: i32,
    pub negative_coefficient: i32,
    pub positive_saturation: i32,
    pub negative_saturation: i32,
}

/// A device-agnostic command for the physical wheel.
#[derive(Debug, Clone, Copy, PartialEq, Eq, Structural)]
pub enum WheelCommand {
    Ignore,
    DeviceControl(DeviceControlCommand),
    StopEffect(EffectKind),
    Constant(ConstantCommand),
    Periodic(PeriodicCommand),
    Condition(ConditionCommand),
}

/// One polled sample of a physical input device.
#[derive(Debug, Clone)]
pub struct InputFrame {
    pub x: i32,
    pub y: i32,
    pub z: i32,
    pub rotation_x: i32,
    pub rotation_y: i32,
    pub rotation_z: i32,
    pub sliders: [i32; 2],
    pub buttons: Vec<bool>,
    pub point_of_view_controllers: Vec<i32>,
}

impl InputFrame {
    /// The value of axis number `axis_index`, in the order x, y, z, rx, ry, rz, slider 0, slider 1.
    pub open spec fn axis_value_spec(&self, axis_index: i32) -> Option<i32> {
        if axis_index == 0 {
            Some(self.x)
        } else if axis_index == 1 {
            Some(self.y)
        } else if axis_index == 2 {
            Some(self.z)
        } else if axis_index == 3 {
            Some(self.rotation_x)
        } else if axis_index == 4 {
            Some(self.rotation_y)
        } else if axis_index == 5 {
            Some(self.rotation_z)
        } else if axis_index == 6 {
            Some(self.sliders[0])
        } else if axis_index == 7 {
            Some(self.sliders[1])
        } else {
            None
        }
    }

    pub fn axis_value(&self, axis_index: i32) -> (r: Option<i32>)
        ensures
            r == self.axis_value_spec(axis_index),
    {
        match axis_index {
            0 => Some(self.x),
            1 => Some(self.y),
            2 => Some(self.z),
            3 => Some(self.rotation_x),
            4 => Some(self.rotation_y),
            5 => Some(self.rotation_z),
            6 => Some(self.sliders[0]),
            7 => Some(self.sliders[1]),
            _ => None,
        }
    }
}

impl Default for InputFrame {
    fn default() -> (r: Self)
        ensures
            r.x == 0 && r.y == 0 && r.z == 0,
            r.rotation_x == 0 && r.rotation_y == 0 && r.rotation_z == 0,
            r.sliders@ == seq![0i32, 0i32],
            r.buttons@.len() == 0,
            r.point_of_view_controllers@.len() == 0,
    {
        InputFrame {
            x: 0,
            y: 0,
            z: 0,
            rotation_x: 0,
            rotation_y: 0,
            rotation_z: 0,
            sliders: [0, 0],
            buttons: Vec::new(),
            point_of_view_controllers: Vec::new(),
        }
    }
}

} // verus!
