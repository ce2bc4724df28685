use vstd::prelude::*;

verus! {

/// USB vendor id of the FFBeast wheel base.
pub const FFBEAST_VID: u16 = 0x045B;

/// USB product id of the FFBeast wheel base.
pub const FFBEAST_PID: u16 = 0x59D7;

/// Size of a report payload, without its report id.
pub const REPORT_SIZE: usize = 64;

/// Size of an output report: the report id followed by the payload.
pub const OUTPUT_REPORT_SIZE: usize = 65;

/// Report id of the generic input/output report that carries the device state.
pub const REPORT_DEVICE_STATE: u8 = 0xA3;

/// Report id used to set the device gain.
pub const REPORT_DEVICE_GAIN: u8 = 0xA3;

/// First payload byte of a direct-control override.
pub const DATA_OVERRIDE_DIRECT_CONTROL: u8 = 0x10;

} // verus!
