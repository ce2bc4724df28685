use vstd::prelude::*;

use crate::constants::{
    DATA_OVERRIDE_DIRECT_CONTROL, OUTPUT_REPORT_SIZE, REPORT_DEVICE_GAIN, REPORT_DEVICE_STATE,
    REPORT_SIZE,
};

verus! {

/// `v` limited to the closed range `[lo, hi]`.
pub open spec fn clamp_int(v: int, lo: int, hi: int) -> int {
    if v < lo {
        lo
    } else if v > hi {
        hi
    } else {
        v
    }
}

/// The low byte of the two's-complement little-endian encoding of a 16-bit value.
pub open spec fn i16_low_byte(v: i16) -> u8 {
    ((if v < 0 { v + 65536 } else { v as int }) % 256) as u8
}

/// The high byte of the two's-complement little-endian encoding of a 16-bit value.
pub open spec fn i16_high_byte(v: i16) -> u8 {
    ((if v < 0 { v + 65536 } else { v as int }) / 256) as u8
}

/// The signed 16-bit value whose little-endian encoding is `[lo, hi]`.
pub open spec fn i16_from_le(lo: u8, hi: u8) -> int {
    if hi < 128 {
        hi * 256 + lo
    } else {
        hi * 256 + lo - 65536
    }
}

/// Decoding the little-endian encoding of a value gives the value back.
pub proof fn lemma_i16_le_round_trip(v: i16)
    ensures
        i16_from_le(i16_low_byte(v), i16_high_byte(v)) == v,
{
}

/// Every pair of bytes decodes to a value whose encoding is that pair.
pub proof fn lemma_i16_le_bytes_round_trip(lo: u8, hi: u8)
    ensures
        i16::MIN <= i16_from_le(lo, hi) <= i16::MAX,
        i16_low_byte(i16_from_le(lo, hi) as i16) == lo,
        i16_high_byte(i16_from_le(lo, hi) as i16) == hi,
{
}

pub fn i16_to_le_bytes(v: i16) -> (r: (u8, u8))
    ensures
        r.0 == i16_low_byte(v),
        r.1 == i16_high_byte(v),
{
    let u: i32 = if v < 0 { v as i32 + 65536 } else { v as i32 };
    ((u % 256) as u8, (u / 256) as u8)
}

pub fn i16_from_le_bytes(lo: u8, hi: u8) -> (r: i16)
    ensures
        r == i16_from_le(lo, hi),
{
    let value: i32 = if hi < 128 {
        hi as i32 * 256 + lo as i32
    } else {
        hi as i32 * 256 + lo as i32 - 65536
    };
    value as i16
}

/// Forces that the wheel applies directly, each in hundredths of a percent of full scale.
#[derive(Debug, Clone, Copy, PartialEq, Eq, Structural)]
pub struct DirectControl {
    pub spring_force: i16,
    pub constant_force: i16,
    pub periodic_force: i16,
    pub force_drop: u8,
}

impl Default for DirectControl {
    fn default() -> (r: Self)
        ensures
            r == DirectControl::zero(),
    {
        DirectControl { spring_force: 0, constant_force: 0, periodic_force: 0, force_drop: 0 }
    }
}

impl DirectControl {
    /// The control that applies no force.
    pub open spec fn zero() -> DirectControl {
        DirectControl { spring_force: 0, constant_force: 0, periodic_force: 0, force_drop: 0 }
    }

    /// Each force within `[-10000, 10000]` and the force drop at most 100.
    pub open spec fn is_clamped(self) -> bool {
        &&& -10_000 <= self.spring_force <= 10_000
        &&& -10_000 <= self.constant_force <= 10_000
        &&& -10_000 <= self.periodic_force <= 10_000
        &&& self.force_drop <= 100
    }

    /// The control limited to the ranges the wheel accepts.
    pub open spec fn clamped_spec(self) -> DirectControl {
        DirectControl {
            spring_force: clamp_int(self.spring_force as int, -10_000, 10_000) as i16,
            constant_force: clamp_int(self.constant_force as int, -10_000, 10_000) as i16,
            periodic_force: clamp_int(self.periodic_force as int, -10_000, 10_000) as i16,
            force_drop: if self.force_drop > 100 { 100 } else { self.force_drop },
        }
    }

    pub fn clamped(self) -> (r: Self)
        ensures
            r == self.clamped_spec(),
            r.is_clamped(),
    {
        DirectControl {
            spring_force: clamp_i16_10k(self.spring_force),
            constant_force: clamp_i16_10k(self.constant_force),
            periodic_force: clamp_i16_10k(self.periodic_force),
            force_drop: if self.force_drop > 100 { 100 } else { self.force_drop },
        }
    }

    /// The report payload for this control: the override tag, then the clamped spring, constant
    /// and periodic forces as little-endian 16-bit values, then the clamped force drop, then zeros.
    pub open spec fn payload_spec(self) -> Seq<u8> {
        let c = self.clamped_spec();
        Seq::new(
            REPORT_SIZE as nat,
            |i: int|
                if i == 0 {
                    DATA_OVERRIDE_DIRECT_CONTROL
                } else if i == 1 {
                    i16_low_byte(c.spring_force)
                } else if i == 2 {
                    i16_high_byte(c.spring_force)
                } else if i == 3 {
                    i16_low_byte(c.constant_force)
                } else if i == 4 {
                    i16_high_byte(c.constant_force)
                } else if i == 5 {
                    i16_low_byte(c.periodic_force)
                } else if i == 6 {
                    i16_high_byte(c.periodic_force)
                } else if i == 7 {
                    c.force_drop
                } else {
                    0u8
                },
        )
    }

    pub fn to_report_payload(self) -> (r: [u8; REPORT_SIZE])
        ensures
            r@ == self.payload_spec(),
    {
        let c = self.clamped();
        let mut payload = [0u8; REPORT_SIZE];
        payload[0] = DATA_OVERRIDE_DIRECT_CONTROL;
        let (s0, s1) = i16_to_le_bytes(c.spring_force);
        payload[1] = s0;
        payload[2] = s1;
        let (c0, c1) = i16_to_le_bytes(c.constant_force);
        payload[3] = c0;
        payload[4] = c1;
        let (p0, p1) = i16_to_le_bytes(c.periodic_force);
        payload[5] = p0;
        payload[6] = p1;
        payload[7] = c.force_drop;
        assert(payload@ =~= self.payload_spec());
        payload
    }
}

pub fn clamp_i16_10k(v: i16) -> (r: i16)
    ensures
        r == clamp_int(v as int, -10_000, 10_000),
{
    if v < -10_000 {
        -10_000
    } else if v > 10_000 {
        10_000
    } else {
        v
    }
}

/// State reported by the wheel base.
#[derive(Debug, Clone, Copy)]
pub struct DeviceState {
    pub firmware_raw: [u8; 4],
    pub is_registered: u8,
    pub position_raw: i16,
    pub torque_raw: i16,
}

impl DeviceState {
    /// Decodes a state report: four firmware bytes, the registration byte, then the position
    /// and the torque as little-endian 16-bit values.
    pub fn from_payload(payload: &[u8; REPORT_SIZE]) -> (r: Self)
        ensures
            r.firmware_raw@ == payload@.subrange(0, 4),
            r.is_registered == payload@[4],
            r.position_raw == i16_from_le(payload@[5], payload@[6]),
            r.torque_raw == i16_from_le(payload@[7], payload@[8]),
    {
        let firmware_raw = [payload[0], payload[1], payload[2], payload[3]];
        assert(firmware_raw@ =~= payload@.subrange(0, 4));
        DeviceState {
            firmware_raw,
            is_registered: payload[4],
            position_raw: i16_from_le_bytes(payload[5], payload[6]),
            torque_raw: i16_from_le_bytes(payload[7], payload[8]),
        }
    }
}

/// An output report: the report id followed by the payload.
pub fn output_report(report_id: u8, payload: &[u8; REPORT_SIZE]) -> (r: [u8; OUTPUT_REPORT_SIZE])
    ensures
        r@ == seq![report_id] + payload@,
{
    let mut report = [0u8; OUTPUT_REPORT_SIZE];
    report[0] = report_id;
    let mut i: usize = 0;
    while i < REPORT_SIZE
        invariant
            i <= REPORT_SIZE,
            report@.len() == OUTPUT_REPORT_SIZE,
            report@[0] == report_id,
            forall|j: int| 0 <= j < i ==> report@[j + 1] == payload@[j],
        decreases REPORT_SIZE - i,
    {
        report[i + 1] = payload[i];
        i += 1;
    }
    assert(report@ =~= seq![report_id] + payload@);
    report
}

/// The output report that sends a direct-control override.
pub fn direct_control_report(control: DirectControl) -> (r: [u8; OUTPUT_REPORT_SIZE])
    ensures
        r@ == seq![REPORT_DEVICE_STATE] + control.payload_spec(),
{
    let payload = control.to_report_payload();
    output_report(REPORT_DEVICE_STATE, &payload)
}

/// The output report that sets the device gain, in percent, capped at 100.
pub fn device_gain_report(gain_percent: u8) -> (r: [u8; OUTPUT_REPORT_SIZE])
    ensures
        r@.len() == OUTPUT_REPORT_SIZE,
        r@[0] == REPORT_DEVICE_GAIN,
        r@[1] == (if gain_percent > 100 { 100 } else { gain_percent }),
        forall|i: int| 2 <= i < OUTPUT_REPORT_SIZE ==> r@[i] == 0,
{
    let mut payload = [0u8; REPORT_SIZE];
    payload[0] = if gain_percent > 100 { 100 } else { gain_percent };
    output_report(REPORT_DEVICE_GAIN, &payload)
}

/// The payload carried by an input report of which `bytes` bytes were read: a leading
/// device-state report id is skipped, at most a payload's worth of bytes is taken, and the rest
/// is zero.
pub open spec fn input_payload(buf: Seq<u8>, bytes: nat) -> Seq<u8> {
    let offset: nat = if buf[0] == REPORT_DEVICE_STATE { 1 } else { 0 };
    let available: int = clamp_int(bytes - offset, 0, REPORT_SIZE as int);
    Seq::new(
        REPORT_SIZE as nat,
        |i: int|
            if i < available {
                buf[offset + i]
            } else {
                0u8
            },
    )
}

/// The device state carried by an input report of which `bytes` bytes were read: the zero
/// state when nothing was read.
pub fn state_from_input_report(buf: &[u8; OUTPUT_REPORT_SIZE], bytes: usize) -> (r: DeviceState)
    ensures
        bytes == 0 ==> r.firmware_raw@ == seq![0u8, 0u8, 0u8, 0u8] && r.is_registered == 0
            && r.position_raw == 0 && r.torque_raw == 0,
        bytes > 0 ==> ({
            let p = input_payload(buf@, bytes as nat);
            &&& r.firmware_raw@ == p.subrange(0, 4)
            &&& r.is_registered == p[4]
            &&& r.position_raw == i16_from_le(p[5], p[6])
            &&& r.torque_raw == i16_from_le(p[7], p[8])
        }),
{
    if bytes == 0 {
        let r = DeviceState { firmware_raw: [0, 0, 0, 0], is_registered: 0, position_raw: 0, torque_raw: 0 };
        assert(r.firmware_raw@ =~= seq![0u8, 0u8, 0u8, 0u8]);
        return r;
    }
    let offset: usize = if buf[0] == REPORT_DEVICE_STATE { 1 } else { 0 };
    let available: usize = if bytes - offset > REPORT_SIZE { REPORT_SIZE } else { bytes - offset };
    let mut payload = [0u8; REPORT_SIZE];
    let mut i: usize = 0;
    while i < available
        invariant
            i <= available,
            available <= REPORT_SIZE,
            offset <= 1,
            payload@.len() == REPORT_SIZE,
            forall|j: int| 0 <= j < i ==> payload@[j] == buf@[offset + j],
            forall|j: int| i <= j < REPORT_SIZE ==> payload@[j] == 0,
        decreases available - i,
    {
        payload[i] = buf[offset + i];
        i += 1;
    }
    assert(payload@ =~= input_payload(buf@, bytes as nat));
    DeviceState::from_payload(&payload)
}

} // verus!
