pub mod ffi;

use vstd::prelude::*;

use self::ffi::RawJoystickState;
pub use self::ffi::VJoyError;

verus! {

/// The HID usages of the axes that a vJoy device must expose for the feeder.
#[derive(Debug, Clone, Copy, PartialEq, Eq, Structural)]
pub enum HidUsage {
    X,
    Y,
    Z,
    Rx,
    Ry,
    Rz,
    Sl0,
    Sl1,
}

impl HidUsage {
    /// The axes that the feeder needs, in the order they are checked.
    pub const REQUIRED_AXES: [HidUsage; 8] = [
        HidUsage::X,
        HidUsage::Y,
        HidUsage::Z,
        HidUsage::Rx,
        HidUsage::Ry,
        HidUsage::Rz,
        HidUsage::Sl0,
        HidUsage::Sl1,
    ];

    /// The required axis at position `i` of `REQUIRED_AXES`.
    pub open spec fn required_axis(i: int) -> HidUsage {
        if i == 0 {
            HidUsage::X
        } else if i == 1 {
            HidUsage::Y
        } else if i == 2 {
            HidUsage::Z
        } else if i == 3 {
            HidUsage::Rx
        } else if i == 4 {
            HidUsage::Ry
        } else if i == 5 {
            HidUsage::Rz
        } else if i == 6 {
            HidUsage::Sl0
        } else {
            HidUsage::Sl1
        }
    }

    pub open spec fn label_spec(self) -> &'static str {
        match self {
            HidUsage::X => "X",
            HidUsage::Y => "Y",
            HidUsage::Z => "Z",
            HidUsage::Rx => "RX",
            HidUsage::Ry => "RY",
            HidUsage::Rz => "RZ",
            HidUsage::Sl0 => "Slider",
            HidUsage::Sl1 => "Dial/Slider1",
        }
    }

    pub fn label(self) -> (r: &'static str)
        ensures
            r == self.label_spec(),
    {
        match self {
            HidUsage::X => "X",
            HidUsage::Y => "Y",
            HidUsage::Z => "Z",
            HidUsage::Rx => "RX",
            HidUsage::Ry => "RY",
            HidUsage::Rz => "RZ",
            HidUsage::Sl0 => "Slider",
            HidUsage::Sl1 => "Dial/Slider1",
        }
    }

    /// The HID usage id: 48 for X through 55 for the second slider, in declaration order.
    pub open spec fn raw_spec(self) -> u32 {
        match self {
            HidUsage::X => 48,
            HidUsage::Y => 49,
            HidUsage::Z => 50,
            HidUsage::Rx => 51,
            HidUsage::Ry => 52,
            HidUsage::Rz => 53,
            HidUsage::Sl0 => 54,
            HidUsage::Sl1 => 55,
        }
    }

    pub fn raw(self) -> (r: u32)
        ensures
            r == self.raw_spec(),
    {
        match self {
            HidUsage::X => 48,
            HidUsage::Y => 49,
            HidUsage::Z => 50,
            HidUsage::Rx => 51,
            HidUsage::Ry => 52,
            HidUsage::Rz => 53,
            HidUsage::Sl0 => 54,
            HidUsage::Sl1 => 55,
        }
    }
}

/// Ownership status of a vJoy device.
#[derive(Debug, Clone, Copy, PartialEq, Eq, Structural)]
pub enum VjdStatus {
    Owned,
    Free,
    Busy,
    Missing,
    Unknown(i32),
}

impl VjdStatus {
    pub open spec fn from_raw_spec(raw: i32) -> VjdStatus {
        if raw == 0 {
            VjdStatus::Owned
        } else if raw == 1 {
            VjdStatus::Free
        } else if raw == 2 {
            VjdStatus::Busy
        } else if raw == 3 {
            VjdStatus::Missing
        } else {
            VjdStatus::Unknown(raw)
        }
    }

    pub fn from_raw(raw: i32) -> (r: Self)
        ensures
            r == Self::from_raw_spec(raw),
    {
        match raw {
            0 => Self::Owned,
            1 => Self::Free,
            2 => Self::Busy,
            3 => Self::Missing,
            _ => Self::Unknown(raw),
        }
    }
}

/// The feeder's picture of a vJoy device's position report.
#[derive(Debug, Clone)]
pub struct VirtualJoystickReport {
    pub device_id: u8,
    pub throttle: i32,
    pub rudder: i32,
    pub aileron: i32,
    pub axis_x: i32,
    pub axis_y: i32,
    pub axis_z: i32,
    pub axis_x_rot: i32,
    pub axis_y_rot: i32,
    pub axis_z_rot: i32,
    pub slider: i32,
    pub dial: i32,
    pub wheel: i32,
    pub axis_vx: i32,
    pub axis_vy: i32,
    pub axis_vz: i32,
    pub axis_vbrx: i32,
    pub axis_vbry: i32,
    pub axis_vbrz: i32,
    pub buttons: u32,
    pub hats: u32,
    pub hats_ex1: u32,
    pub hats_ex2: u32,
    pub hats_ex3: u32,
    pub buttons_ex1: u32,
    pub buttons_ex2: u32,
    pub buttons_ex3: u32,
}

impl VirtualJoystickReport {
    /// The report with every field zero.
    pub open spec fn zeroed() -> VirtualJoystickReport {
        VirtualJoystickReport {
            device_id: 0,
            throttle: 0,
            rudder: 0,
            aileron: 0,
            axis_x: 0,
            axis_y: 0,
            axis_z: 0,
            axis_x_rot: 0,
            axis_y_rot: 0,
            axis_z_rot: 0,
            slider: 0,
            dial: 0,
            wheel: 0,
            axis_vx: 0,
            axis_vy: 0,
            axis_vz: 0,
            axis_vbrx: 0,
            axis_vbry: 0,
            axis_vbrz: 0,
            buttons: 0,
            hats: 0,
            hats_ex1: 0,
            hats_ex2: 0,
            hats_ex3: 0,
            buttons_ex1: 0,
            buttons_ex2: 0,
            buttons_ex3: 0,
        }
    }

    /// The report after a reset for device `id`: the device id (its low byte), the steering axis
    /// at 16384, the other primary axes and both sliders centered at 32767, no buttons and the
    /// hat centered (0b1111); every other field as it was.
    pub open spec fn reset_spec(self, id: u32) -> VirtualJoystickReport {
        VirtualJoystickReport {
            device_id: id as u8,
            axis_x: 16384,
            axis_y: 32767,
            axis_z: 32767,
            axis_x_rot: 32767,
            axis_y_rot: 32767,
            axis_z_rot: 32767,
            slider: 32767,
            dial: 32767,
            buttons: 0,
            hats: 0b0000_1111,
            ..self
        }
    }

    /// The driver's position block carrying the same values field for field.
    pub open spec fn raw_state_spec(self) -> RawJoystickState {
        RawJoystickState {
            b_device: self.device_id,
            throttle: self.throttle,
            rudder: self.rudder,
            aileron: self.aileron,
            axis_x: self.axis_x,
            axis_y: self.axis_y,
            axis_z: self.axis_z,
            axis_x_rot: self.axis_x_rot,
            axis_y_rot: self.axis_y_rot,
            axis_z_rot: self.axis_z_rot,
            slider: self.slider,
            dial: self.dial,
            wheel: self.wheel,
            axis_vx: self.axis_vx,
            axis_vy: self.axis_vy,
            axis_vz: self.axis_vz,
            axis_vbrx: self.axis_vbrx,
            axis_vbry: self.axis_vbry,
            axis_vbrz: self.axis_vbrz,
            buttons: self.buttons,
            b_hats: self.hats,
            b_hats_ex1: self.hats_ex1,
            b_hats_ex2: self.hats_ex2,
            b_hats_ex3: self.hats_ex3,
            buttons_ex1: self.buttons_ex1,
            buttons_ex2: self.buttons_ex2,
            buttons_ex3: self.buttons_ex3,
        }
    }

    pub fn to_raw_state(&self) -> (r: RawJoystickState)
        ensures
            r == self.raw_state_spec(),
    {
        RawJoystickState {
            b_device: self.device_id,
            throttle: self.throttle,
            rudder: self.rudder,
            aileron: self.aileron,
            axis_x: self.axis_x,
            axis_y: self.axis_y,
            axis_z: self.axis_z,
            axis_x_rot: self.axis_x_rot,
            axis_y_rot: self.axis_y_rot,
            axis_z_rot: self.axis_z_rot,
            slider: self.slider,
            dial: self.dial,
            wheel: self.wheel,
            axis_vx: self.axis_vx,
            axis_vy: self.axis_vy,
            axis_vz: self.axis_vz,
            axis_vbrx: self.axis_vbrx,
            axis_vbry: self.axis_vbry,
            axis_vbrz: self.axis_vbrz,
            buttons: self.buttons,
            b_hats: self.hats,
            b_hats_ex1: self.hats_ex1,
            b_hats_ex2: self.hats_ex2,
            b_hats_ex3: self.hats_ex3,
            buttons_ex1: self.buttons_ex1,
            buttons_ex2: self.buttons_ex2,
            buttons_ex3: self.buttons_ex3,
        }
    }

    /// Resets the report of device `id` to its neutral position.
    pub fn reset_report_state(id: u32, report: &mut VirtualJoystickReport)
        ensures
            *final(report) == old(report).reset_spec(id),
    {
        report.device_id = id as u8;
        report.axis_x = 16384;
        report.axis_y = 32767;
        report.axis_z = 32767;
        report.axis_x_rot = 32767;
        report.axis_y_rot = 32767;
        report.axis_z_rot = 32767;
        report.slider = 32767;
        report.dial = 32767;
        report.buttons = 0;
        report.hats = 0b0000_1111;
    }
}

impl Default for VirtualJoystickReport {
    fn default() -> (r: Self)
        ensures
            r == VirtualJoystickReport::zeroed(),
    {
        VirtualJoystickReport {
            device_id: 0,
            throttle: 0,
            rudder: 0,
            aileron: 0,
            axis_x: 0,
            axis_y: 0,
            axis_z: 0,
            axis_x_rot: 0,
            axis_y_rot: 0,
            axis_z_rot: 0,
            slider: 0,
            dial: 0,
            wheel: 0,
            axis_vx: 0,
            axis_vy: 0,
            axis_vz: 0,
            axis_vbrx: 0,
            axis_vbry: 0,
            axis_vbrz: 0,
            buttons: 0,
            hats: 0,
            hats_ex1: 0,
            hats_ex2: 0,
            hats_ex3: 0,
            buttons_ex1: 0,
            buttons_ex2: 0,
            buttons_ex3: 0,
        }
    }
}

/// Reasons why a vJoy device cannot be used by the feeder.
#[derive(Debug)]
pub enum VJoyDeviceError {
    Api(VJoyError),
    NotEnabled,
    AlreadyOwned(u32),
    Busy(u32),
    Missing(u32),
    UnknownStatus(u32),
    MissingAxis { device_id: u32, axis: &'static str },
    ButtonCount { device_id: u32, expected: i32, actual: i32 },
    DiscPovCount { device_id: u32, expected: i32, actual: i32 },
    ContinuousPovUnsupported { device_id: u32 },
    DriverMismatch { dll: u32, driver: u32 },
    AcquireFailed(u32),
    UpdateFailed(u32),
}

/// What the vJoy interface reports about a device before the feeder acquires it.
#[derive(Debug, Clone, Copy)]
pub struct VJoyDeviceProbe {
    pub enabled: bool,
    pub status: VjdStatus,
    /// Whether each axis of `HidUsage::REQUIRED_AXES` exists, in that order.
    pub axes_present: [bool; 8],
    pub button_count: i32,
    pub disc_pov_count: i32,
    pub cont_pov_count: i32,
    pub driver_matches: bool,
    pub dll_version: u32,
    pub driver_version: u32,
}

/// The number of buttons a feeder device must have.
pub const REQUIRED_BUTTONS: i32 = 128;

/// The number of discrete POV hats a feeder device must have.
pub const REQUIRED_DISC_POVS: i32 = 1;

/// The index of the first required axis that is missing, if any.
pub open spec fn first_missing_axis(axes: Seq<bool>) -> Option<int> {
    if exists|i: int| 0 <= i < axes.len() && !axes[i] {
        Some(choose|i: int| 0 <= i < axes.len() && !axes[i] && forall|j: int| 0 <= j < i ==> axes[j])
    } else {
        None
    }
}

/// The first failed check, in the order: enabled, status free, every required axis, button
/// count, discrete POV count, no continuous POVs, matching driver.
pub open spec fn readiness_error(id: u32, probe: VJoyDeviceProbe) -> Option<VJoyDeviceError> {
    if !probe.enabled {
        Some(VJoyDeviceError::NotEnabled)
    } else if probe.status is Owned {
        Some(VJoyDeviceError::AlreadyOwned(id))
    } else if probe.status is Busy {
        Some(VJoyDeviceError::Busy(id))
    } else if probe.status is Missing {
        Some(VJoyDeviceError::Missing(id))
    } else if probe.status is Unknown {
        Some(VJoyDeviceError::UnknownStatus(id))
    } else if first_missing_axis(probe.axes_present@) is Some {
        Some(
            VJoyDeviceError::MissingAxis {
                device_id: id,
                axis: HidUsage::required_axis(first_missing_axis(probe.axes_present@)->0).label_spec(),
            },
        )
    } else if probe.button_count != REQUIRED_BUTTONS {
        Some(
            VJoyDeviceError::ButtonCount {
                device_id: id,
                expected: REQUIRED_BUTTONS,
                actual: probe.button_count,
            },
        )
    } else if probe.disc_pov_count != REQUIRED_DISC_POVS {
        Some(
            VJoyDeviceError::DiscPovCount {
                device_id: id,
                expected: REQUIRED_DISC_POVS,
                actual: probe.disc_pov_count,
            },
        )
    } else if probe.cont_pov_count > 0 {
        Some(VJoyDeviceError::ContinuousPovUnsupported { device_id: id })
    } else if !probe.driver_matches {
        Some(
            VJoyDeviceError::DriverMismatch { dll: probe.dll_version, driver: probe.driver_version },
        )
    } else {
        None
    }
}

/// Checks that a probed device can be used by the feeder.
pub fn check_device_readiness(id: u32, probe: &VJoyDeviceProbe) -> (r: Result<(), VJoyDeviceError>)
    ensures
        match readiness_error(id, *probe) {
            None => r is Ok,
            Some(e) => r == Err::<(), VJoyDeviceError>(e),
        },
{
    if !probe.enabled {
        return Err(VJoyDeviceError::NotEnabled);
    }
    match probe.status {
        VjdStatus::Owned => {
            return Err(VJoyDeviceError::AlreadyOwned(id));
        },
        VjdStatus::Busy => {
            return Err(VJoyDeviceError::Busy(id));
        },
        VjdStatus::Missing => {
            return Err(VJoyDeviceError::Missing(id));
        },
        VjdStatus::Unknown(_) => {
            return Err(VJoyDeviceError::UnknownStatus(id));
        },
        VjdStatus::Free => {},
    }
    let axes = HidUsage::REQUIRED_AXES;
    let mut i: usize = 0;
    while i < 8
        invariant
            i <= 8,
            probe.enabled,
            probe.status is Free,
            forall|j: int| 0 <= j < i ==> probe.axes_present@[j],
            forall|j: int| 0 <= j < 8 ==> axes@[j] == HidUsage::required_axis(j),
        decreases 8 - i,
    {
        if !probe.axes_present[i] {
            proof {
                assert(first_missing_axis(probe.axes_present@) == Some(i as int)) by {
                    let k = choose|k: int|
                        0 <= k < 8 && !probe.axes_present@[k] && forall|j: int|
                            0 <= j < k ==> probe.axes_present@[j];
                    assert(0 <= i < 8 && !probe.axes_present@[i as int] && forall|j: int|
                        0 <= j < i ==> probe.axes_present@[j]);
                    if k < i {
                    } else if k > i {
                        assert(probe.axes_present@[i as int]);
                    }
                }
            }
            return Err(VJoyDeviceError::MissingAxis { device_id: id, axis: axes[i].label() });
        }
        i += 1;
    }
    assert(first_missing_axis(probe.axes_present@) is None);
    if probe.button_count != REQUIRED_BUTTONS {
        return Err(
            VJoyDeviceError::ButtonCount {
                device_id: id,
                expected: REQUIRED_BUTTONS,
                actual: probe.button_count,
            },
        );
    }
    if probe.disc_pov_count != REQUIRED_DISC_POVS {
        return Err(
            VJoyDeviceError::DiscPovCount {
                device_id: id,
                expected: REQUIRED_DISC_POVS,
                actual: probe.disc_pov_count,
            },
        );
    }
    if probe.cont_pov_count > 0 {
        return Err(VJoyDeviceError::ContinuousPovUnsupported { device_id: id });
    }
    if !probe.driver_matches {
        return Err(
            VJoyDeviceError::DriverMismatch { dll: probe.dll_version, driver: probe.driver_version },
        );
    }
    Ok(())
}

/// Handing a report to the driver changes no value: each field of the driver's position block
/// holds the report's field of the same name (the device id, every axis, the buttons and the
/// hats), so no axis, button word or hat ends up in another's place.
pub proof fn lemma_raw_state_keeps_each_field(report: VirtualJoystickReport)
    ensures
        ({
            let raw = report.raw_state_spec();
            &&& raw.b_device == report.device_id
            &&& raw.throttle == report.throttle
            &&& raw.rudder == report.rudder
            &&& raw.aileron == report.aileron
            &&& raw.axis_x == report.axis_x
            &&& raw.axis_y == report.axis_y
            &&& raw.axis_z == report.axis_z
            &&& raw.axis_x_rot == report.axis_x_rot
            &&& raw.axis_y_rot == report.axis_y_rot
            &&& raw.axis_z_rot == report.axis_z_rot
            &&& raw.slider == report.slider
            &&& raw.dial == report.dial
            &&& raw.wheel == report.wheel
            &&& raw.axis_vx == report.axis_vx
            &&& raw.axis_vy == report.axis_vy
            &&& raw.axis_vz == report.axis_vz
            &&& raw.axis_vbrx == report.axis_vbrx
            &&& raw.axis_vbry == report.axis_vbry
            &&& raw.axis_vbrz == report.axis_vbrz
            &&& raw.buttons == report.buttons
            &&& raw.b_hats == report.hats
            &&& raw.b_hats_ex1 == report.hats_ex1
            &&& raw.b_hats_ex2 == report.hats_ex2
            &&& raw.b_hats_ex3 == report.hats_ex3
            &&& raw.buttons_ex1 == report.buttons_ex1
            &&& raw.buttons_ex2 == report.buttons_ex2
            &&& raw.buttons_ex3 == report.buttons_ex3
        }),
{
}

} // verus!
