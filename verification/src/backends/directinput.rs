use vstd::prelude::*;

use crate::domain::{ConditionCommand, DeviceControlCommand, EffectKind, PeriodicCommand, WheelCommand};
use crate::text::{push_char, str_eq};

verus! {

/// Normalized product GUID of vJoy's virtual devices, which the backend never drives.
pub const VJOY_PRODUCT_GUID: &'static str = "bead1234000000000000504944564944";
pub const DIEFF_OBJECTIDS: u32 = 0x0000_0001;
pub const DIEFF_CARTESIAN: u32 = 0x0000_0010;
pub const DIES_PLAYING: u32 = 0x0000_0001;
pub const DIDC_FORCEFEEDBACK: u32 = 0x0000_0100;
pub const DISFFC_RESET: u32 = 0x0000_0001;
pub const DISFFC_STOPALL: u32 = 0x0000_0002;
pub const DISFFC_PAUSE: u32 = 0x0000_0004;
pub const DISFFC_CONTINUE: u32 = 0x0000_0008;
pub const DIEB_NOTRIGGER: u32 = 0xFFFF_FFFF;
pub const INFINITE_DURATION: u32 = 0xFFFF_FFFF;

/// A 128-bit globally unique identifier in its Windows layout.
#[derive(Debug, Clone, Copy, PartialEq, Eq)]
pub struct Guid {
    pub data1: u32,
    pub data2: u16,
    pub data3: u16,
    pub data4: [u8; 8],
}

/// The lowercase hexadecimal digit for a value below sixteen.
pub open spec fn hex_char(d: nat) -> char {
    if d < 10 {
        crate::text::digit_char(d)
    } else if d == 10 {
        'a'
    } else if d == 11 {
        'b'
    } else if d == 12 {
        'c'
    } else if d == 13 {
        'd'
    } else if d == 14 {
        'e'
    } else {
        'f'
    }
}

/// The lowest `width` hexadecimal digits of `n`, most significant first, zero-padded.
pub open spec fn hex_digits(n: nat, width: nat) -> Seq<char>
    decreases width,
{
    if width == 0 {
        Seq::empty()
    } else {
        hex_digits(n / 16, (width - 1) as nat).push(hex_char(n % 16))
    }
}

/// The registry form of a GUID, without braces: `xxxxxxxx-xxxx-xxxx-xxxx-xxxxxxxxxxxx` in
/// lowercase hexadecimal.
pub open spec fn guid_text(g: Guid) -> Seq<char> {
    hex_digits(g.data1 as nat, 8) + "-"@ + hex_digits(g.data2 as nat, 4) + "-"@ + hex_digits(
        g.data3 as nat,
        4,
    ) + "-"@ + hex_digits(g.data4[0] as nat, 2) + hex_digits(g.data4[1] as nat, 2) + "-"@
        + hex_digits(g.data4[2] as nat, 2) + hex_digits(g.data4[3] as nat, 2) + hex_digits(
        g.data4[4] as nat,
        2,
    ) + hex_digits(g.data4[5] as nat, 2) + hex_digits(g.data4[6] as nat, 2) + hex_digits(
        g.data4[7] as nat,
        2,
    )
}

fn hex_digit(d: u64) -> (c: char)
    requires
        d < 16,
    ensures
        c == hex_char(d as nat),
{
    if d == 0 {
        '0'
    } else if d == 1 {
        '1'
    } else if d == 2 {
        '2'
    } else if d == 3 {
        '3'
    } else if d == 4 {
        '4'
    } else if d == 5 {
        '5'
    } else if d == 6 {
        '6'
    } else if d == 7 {
        '7'
    } else if d == 8 {
        '8'
    } else if d == 9 {
        '9'
    } else if d == 10 {
        'a'
    } else if d == 11 {
        'b'
    } else if d == 12 {
        'c'
    } else if d == 13 {
        'd'
    } else if d == 14 {
        'e'
    } else {
        'f'
    }
}

fn append_hex(out: &mut String, n: u64, width: u64)
    ensures
        final(out)@ == old(out)@ + hex_digits(n as nat, width as nat),
    decreases width,
{
    if width > 0 {
        append_hex(out, n / 16, width - 1);
        push_char(out, hex_digit(n % 16));
        assert(old(out)@ + hex_digits((n / 16) as nat, (width - 1) as nat) + seq![hex_char((n % 16) as nat)]
            =~= old(out)@ + hex_digits(n as nat, width as nat));
    } else {
        assert(old(out)@ + hex_digits(n as nat, 0) =~= old(out)@);
    }
}

pub fn guid_to_string(guid: &Guid) -> (r: String)
    ensures
        r@ == guid_text(*guid),
{
    let mut out = String::new();
    append_hex(&mut out, guid.data1 as u64, 8);
    out.append("-");
    append_hex(&mut out, guid.data2 as u64, 4);
    out.append("-");
    append_hex(&mut out, guid.data3 as u64, 4);
    out.append("-");
    append_hex(&mut out, guid.data4[0] as u64, 2);
    append_hex(&mut out, guid.data4[1] as u64, 2);
    out.append("-");
    append_hex(&mut out, guid.data4[2] as u64, 2);
    append_hex(&mut out, guid.data4[3] as u64, 2);
    append_hex(&mut out, guid.data4[4] as u64, 2);
    append_hex(&mut out, guid.data4[5] as u64, 2);
    append_hex(&mut out, guid.data4[6] as u64, 2);
    append_hex(&mut out, guid.data4[7] as u64, 2);
    assert(out@ =~= guid_text(*guid));
    out
}

/// Whether a character is an ASCII hexadecimal digit.
pub open spec fn is_hex_char(c: char) -> bool {
    ('0' <= c && c <= '9') || ('a' <= c && c <= 'f') || ('A' <= c && c <= 'F')
}

/// The ASCII lowercase form of a character.
pub open spec fn ascii_lower(c: char) -> char {
    if 'A' <= c && c <= 'Z' {
        ((c as u32) + 32) as char
    } else {
        c
    }
}

/// The hexadecimal digits of a GUID text in order, lowercased; every other character dropped.
pub open spec fn guid_token(s: Seq<char>) -> Seq<char>
    decreases s.len(),
{
    if s.len() == 0 {
        Seq::empty()
    } else if is_hex_char(s.last()) {
        guid_token(s.drop_last()).push(ascii_lower(s.last()))
    } else {
        guid_token(s.drop_last())
    }
}

fn lower_hex_char(c: char) -> (r: char)
    requires
        is_hex_char(c),
    ensures
        r == ascii_lower(c),
{
    if c == 'A' {
        'a'
    } else if c == 'B' {
        'b'
    } else if c == 'C' {
        'c'
    } else if c == 'D' {
        'd'
    } else if c == 'E' {
        'e'
    } else if c == 'F' {
        'f'
    } else {
        c
    }
}

/// A GUID text reduced to its lowercase hexadecimal digits, so that differently punctuated or
/// cased forms of one GUID compare equal.
pub fn normalize_guid_token(value: &str) -> (r: String)
    ensures
        r@ == guid_token(value@),
{
    let n = value.unicode_len();
    let mut out = String::new();
    let mut i: usize = 0;
    while i < n
        invariant
            n == value@.len(),
            i <= n,
            out@ == guid_token(value@.take(i as int)),
        decreases n - i,
    {
        let c = value.get_char(i);
        proof {
            assert(value@.take(i + 1).drop_last() =~= value@.take(i as int));
            assert(value@.take(i + 1).last() == c);
        }
        if ('0' <= c && c <= '9') || ('a' <= c && c <= 'f') || ('A' <= c && c <= 'F') {
            push_char(&mut out, lower_hex_char(c));
        }
        i += 1;
    }
    assert(value@.take(n as int) =~= value@);
    out
}

/// The UTF-16 code units of one character: itself when it is in the basic plane, otherwise its
/// surrogate pair.
pub open spec fn utf16_units(c: char) -> Seq<u16> {
    let v = c as u32 as int;
    if v < 0x10000 {
        seq![v as u16]
    } else {
        seq![(0xD800 + (v - 0x10000) / 0x400) as u16, (0xDC00 + (v - 0x10000) % 0x400) as u16]
    }
}

/// The UTF-16 encoding of a character sequence.
pub open spec fn utf16_encoding(s: Seq<char>) -> Seq<u16>
    decreases s.len(),
{
    if s.len() == 0 {
        Seq::empty()
    } else {
        utf16_encoding(s.drop_last()) + utf16_units(s.last())
    }
}

/// The UTF-16 encoding of a string followed by a terminating zero unit.
pub fn wide_null(value: &str) -> (r: Vec<u16>)
    ensures
        r@ == utf16_encoding(value@).push(0u16),
{
    let n = value.unicode_len();
    let mut out: Vec<u16> = Vec::new();
    let mut i: usize = 0;
    while i < n
        invariant
            n == value@.len(),
            i <= n,
            out@ == utf16_encoding(value@.take(i as int)),
        decreases n - i,
    {
        let c = value.get_char(i);
        proof {
            assert(value@.take(i + 1).drop_last() =~= value@.take(i as int));
            assert(value@.take(i + 1).last() == c);
        }
        let v: u32 = c as u32;
        if v < 0x10000 {
            out.push(v as u16);
        } else {
            let offset = v - 0x10000;
            assert(offset < 0x100000) by {
                assert(v <= 0x10FFFF);
            }
            out.push((0xD800 + offset / 0x400) as u16);
            out.push((0xDC00 + offset % 0x400) as u16);
        }
        assert(out@ =~= utf16_encoding(value@.take(i + 1)));
        i += 1;
    }
    assert(value@.take(n as int) =~= value@);
    out.push(0);
    out
}

/// Whether an HRESULT reports failure.
pub fn failed(hr: i32) -> (r: bool)
    ensures
        r == (hr < 0),
{
    hr < 0
}

pub fn clamp_signed_10k(value: i32) -> (r: i32)
    ensures
        r == (if value < -10_000 {
            -10_000
        } else if value > 10_000 {
            10_000
        } else {
            value as int
        }),
{
    if value < -10_000 {
        -10_000
    } else if value > 10_000 {
        10_000
    } else {
        value
    }
}

pub fn clamp_unsigned_10k(value: i32) -> (r: u32)
    ensures
        r == (if value < 0 {
            0
        } else if value > 10_000 {
            10_000
        } else {
            value as int
        }),
{
    if value < 0 {
        0
    } else if value > 10_000 {
        10_000
    } else {
        value as u32
    }
}

/// A duration in microseconds: infinite for a negative duration, otherwise the milliseconds
/// times a thousand, saturated to `u32`.
pub open spec fn ms_to_us_spec(value_ms: i32) -> u32 {
    if value_ms < 0 {
        INFINITE_DURATION
    } else if value_ms * 1000 > u32::MAX {
        u32::MAX
    } else {
        (value_ms * 1000) as u32
    }
}

pub fn ms_to_us(value_ms: i32) -> (r: u32)
    ensures
        r == ms_to_us_spec(value_ms),
{
    if value_ms < 0 {
        INFINITE_DURATION
    } else {
        let us: u64 = value_ms as u64 * 1000;
        if us > u32::MAX as u64 {
            u32::MAX
        } else {
            us as u32
        }
    }
}

/// What the backend reports about an attached game controller.
#[derive(Debug, Clone, PartialEq, Eq)]
pub struct DirectInputDeviceInfo {
    pub instance_guid: String,
    pub product_guid: String,
    pub instance_name: String,
    pub product_name: String,
    pub configured: bool,
    pub configured_ffb: bool,
}

#[derive(Debug, Clone, Copy, PartialEq, Eq, Structural)]
pub struct DirectInputCapabilities {
    pub force_feedback_capable: bool,
}

/// The capabilities that a device's capability flags announce.
pub fn capabilities_from_flags(flags: u32) -> (r: DirectInputCapabilities)
    ensures
        r.force_feedback_capable == (flags & DIDC_FORCEFEEDBACK != 0),
{
    DirectInputCapabilities { force_feedback_capable: flags & DIDC_FORCEFEEDBACK != 0 }
}

/// Errors of the DirectInput backend.
#[derive(Debug)]
pub enum DirectInputError {
    /// The backend is only available on Windows.
    Unsupported,
    CreateDirectInput { hr: u32 },
    EnumDevices { hr: u32 },
    NoConfiguredFfbDevice,
    ConfiguredFfbDeviceNotAttached { instance_name: String, instance_guid: String },
    CreateDevice { instance_name: String, instance_guid: String, hr: u32 },
    SetCooperativeLevel { instance_name: String, instance_guid: String, hr: u32 },
    LoadDataFormat { message: String },
    GetCapabilities { instance_name: String, instance_guid: String, hr: u32 },
    Acquire { instance_name: String, instance_guid: String, hr: u32 },
    CreateEffect { instance_name: String, instance_guid: String, effect: &'static str, hr: u32 },
    SetEffect { instance_name: String, instance_guid: String, effect: &'static str, hr: u32 },
    EffectStatus { instance_name: String, instance_guid: String, effect: &'static str, hr: u32 },
    StartEffect { instance_name: String, instance_guid: String, effect: &'static str, hr: u32 },
    StopEffect { instance_name: String, instance_guid: String, effect: &'static str, hr: u32 },
    SendDeviceControl { instance_name: String, instance_guid: String, command: u32, hr: u32 },
    CreateWindow { message: String },
    EnumActuators { instance_name: String, instance_guid: String, hr: u32 },
    NoActuators { instance_name: String, instance_guid: String },
}

/// A game controller as DirectInput enumerates it.
#[derive(Debug, Clone)]
pub struct EnumeratedDevice {
    pub instance_guid: Guid,
    pub product_guid: Guid,
    pub instance_name: String,
    pub product_name: String,
}

/// What the backend needs to know of a configured controller.
#[derive(Debug, Clone)]
pub struct ConfiguredController {
    pub instance_guid: String,
    pub instance_name: String,
    pub has_ffb_parameters: bool,
}

/// Whether an enumerated device is one of vJoy's virtual devices.
pub open spec fn is_vjoy_device(d: EnumeratedDevice) -> bool {
    guid_token(guid_text(d.product_guid)) == VJOY_PRODUCT_GUID@
}

/// Whether a configured controller names the enumerated device's instance.
pub open spec fn configures(c: ConfiguredController, d: EnumeratedDevice) -> bool {
    guid_token(c.instance_guid@) == guid_token(guid_text(d.instance_guid))
}

/// The report for an enumerated device: its GUID texts and names, and whether some configured
/// controller names it and whether some configured controller with force-feedback parameters
/// names it.
pub open spec fn describes(
    info: DirectInputDeviceInfo,
    d: EnumeratedDevice,
    controllers: Seq<ConfiguredController>,
) -> bool {
    &&& info.instance_guid@ == guid_text(d.instance_guid)
    &&& info.product_guid@ == guid_text(d.product_guid)
    &&& info.instance_name@ == d.instance_name@
    &&& info.product_name@ == d.product_name@
    &&& info.configured == exists|i: int| 0 <= i < controllers.len() && configures(controllers[i], d)
    &&& info.configured_ffb == exists|i: int|
        0 <= i < controllers.len() && controllers[i].has_ffb_parameters && configures(
            controllers[i],
            d,
        )
}

/// The enumerated devices that are not vJoy devices, in enumeration order.
pub open spec fn physical_devices(devices: Seq<EnumeratedDevice>) -> Seq<EnumeratedDevice>
    decreases devices.len(),
{
    if devices.len() == 0 {
        Seq::empty()
    } else if is_vjoy_device(devices.last()) {
        physical_devices(devices.drop_last())
    } else {
        physical_devices(devices.drop_last()).push(devices.last())
    }
}

fn configured_flags(controllers: &[ConfiguredController], token: &str, d: Ghost<EnumeratedDevice>) -> (r: (bool, bool))
    requires
        token@ == guid_token(guid_text(d@.instance_guid)),
    ensures
        r.0 == exists|i: int| 0 <= i < controllers@.len() && configures(controllers@[i], d@),
        r.1 == exists|i: int|
            0 <= i < controllers@.len() && controllers@[i].has_ffb_parameters && configures(
                controllers@[i],
                d@,
            ),
{
    let mut configured = false;
    let mut configured_ffb = false;
    let mut i: usize = 0;
    while i < controllers.len()
        invariant
            i <= controllers@.len(),
            token@ == guid_token(guid_text(d@.instance_guid)),
            configured == exists|k: int| 0 <= k < i && configures(controllers@[k], d@),
            configured_ffb == exists|k: int|
                0 <= k < i && controllers@[k].has_ffb_parameters && configures(controllers@[k], d@),
        decreases controllers@.len() - i,
    {
        let other = normalize_guid_token(controllers[i].instance_guid.as_str());
        if str_eq(other.as_str(), token) {
            configured = true;
            if controllers[i].has_ffb_parameters {
                configured_ffb = true;
            }
        }
        i += 1;
    }
    (configured, configured_ffb)
}

fn is_vjoy(device: &EnumeratedDevice) -> (r: bool)
    ensures
        r == is_vjoy_device(*device),
{
    let text = guid_to_string(&device.product_guid);
    let token = normalize_guid_token(text.as_str());
    str_eq(token.as_str(), VJOY_PRODUCT_GUID)
}

/// Reports every attached game controller but vJoy's virtual devices, in enumeration order,
/// with whether the configuration names it.
pub fn describe_devices(devices: &[EnumeratedDevice], controllers: &[ConfiguredController]) -> (r: Vec<DirectInputDeviceInfo>)
    ensures
        r@.len() == physical_devices(devices@).len(),
        forall|i: int|
            0 <= i < r@.len() ==> describes(r@[i], physical_devices(devices@)[i], controllers@),
{
    let mut infos: Vec<DirectInputDeviceInfo> = Vec::new();
    let mut k: usize = 0;
    while k < devices.len()
        invariant
            k <= devices@.len(),
            infos@.len() == physical_devices(devices@.take(k as int)).len(),
            forall|i: int|
                0 <= i < infos@.len() ==> describes(
                    infos@[i],
                    physical_devices(devices@.take(k as int))[i],
                    controllers@,
                ),
        decreases devices@.len() - k,
    {
        let device = &devices[k];
        proof {
            assert(devices@.take(k + 1).drop_last() =~= devices@.take(k as int));
            assert(devices@.take(k + 1).last() == *device);
        }
        if !is_vjoy(device) {
            let instance_guid = guid_to_string(&device.instance_guid);
            let product_guid = guid_to_string(&device.product_guid);
            let token = normalize_guid_token(instance_guid.as_str());
            let (configured, configured_ffb) = configured_flags(controllers, token.as_str(), Ghost(*device));
            let info = DirectInputDeviceInfo {
                instance_guid,
                product_guid,
                instance_name: device.instance_name.clone(),
                product_name: device.product_name.clone(),
                configured,
                configured_ffb,
            };
            infos.push(info);
        }
        k += 1;
    }
    assert(devices@.take(devices@.len() as int) =~= devices@);
    infos
}

/// The index of the first configured controller that has force-feedback parameters.
pub open spec fn first_ffb_controller(controllers: Seq<ConfiguredController>) -> Option<int> {
    if exists|i: int| 0 <= i < controllers.len() && controllers[i].has_ffb_parameters {
        Some(
            choose|i: int|
                0 <= i < controllers.len() && controllers[i].has_ffb_parameters && forall|j: int|
                    0 <= j < i ==> !controllers[j].has_ffb_parameters,
        )
    } else {
        None
    }
}

/// The index of the first enumerated device that the configured controller names.
pub open spec fn first_configured_device(
    devices: Seq<EnumeratedDevice>,
    c: ConfiguredController,
) -> Option<int> {
    if exists|i: int| 0 <= i < devices.len() && configures(c, devices[i]) {
        Some(
            choose|i: int|
                0 <= i < devices.len() && configures(c, devices[i]) && forall|j: int|
                    0 <= j < i ==> !configures(c, devices[j]),
        )
    } else {
        None
    }
}

/// Picks the attached device that the configuration names as the force-feedback device: the
/// first configured controller with force-feedback parameters decides, and the first attached
/// device with its instance GUID is taken.
pub fn select_configured_ffb_device(devices: &[EnumeratedDevice], controllers: &[ConfiguredController]) -> (r: Result<(usize, DirectInputDeviceInfo), DirectInputError>)
    ensures
        match first_ffb_controller(controllers@) {
            None => r matches Err(DirectInputError::NoConfiguredFfbDevice),
            Some(ci) => match first_configured_device(devices@, controllers@[ci]) {
                None => r matches Err(DirectInputError::ConfiguredFfbDeviceNotAttached { instance_name, instance_guid })
                    && instance_name@ == controllers@[ci].instance_name@ && instance_guid@ == controllers@[ci].instance_guid@,
                Some(di) => r matches Ok((index, info)) && index == di
                    && info.instance_guid@ == guid_text(devices@[di].instance_guid)
                    && info.product_guid@ == guid_text(devices@[di].product_guid)
                    && info.instance_name@ == devices@[di].instance_name@
                    && info.product_name@ == devices@[di].product_name@
                    && info.configured && info.configured_ffb,
            },
        },
{
    let mut ci: usize = 0;
    while ci < controllers.len() && !controllers[ci].has_ffb_parameters
        invariant
            ci <= controllers@.len(),
            forall|j: int| 0 <= j < ci ==> !controllers@[j].has_ffb_parameters,
        decreases controllers@.len() - ci,
    {
        ci += 1;
    }
    if ci == controllers.len() {
        return Err(DirectInputError::NoConfiguredFfbDevice);
    }
    assert(first_ffb_controller(controllers@) == Some(ci as int)) by {
        let k = choose|i: int|
            0 <= i < controllers@.len() && controllers@[i].has_ffb_parameters && forall|j: int|
                0 <= j < i ==> !controllers@[j].has_ffb_parameters;
        assert(0 <= ci < controllers@.len() && controllers@[ci as int].has_ffb_parameters);
        if k < ci {
        } else if k > ci {
            assert(!controllers@[ci as int].has_ffb_parameters);
        }
    }
    let configured = &controllers[ci];
    let wanted = normalize_guid_token(configured.instance_guid.as_str());
    let mut di: usize = 0;
    while di < devices.len()
        invariant
            di <= devices@.len(),
            ci < controllers@.len(),
            *configured == controllers@[ci as int],
            first_ffb_controller(controllers@) == Some(ci as int),
            wanted@ == guid_token(configured.instance_guid@),
            forall|j: int| 0 <= j < di ==> !configures(*configured, devices@[j]),
        decreases devices@.len() - di,
    {
        let text = guid_to_string(&devices[di].instance_guid);
        let token = normalize_guid_token(text.as_str());
        if str_eq(token.as_str(), wanted.as_str()) {
            assert(first_configured_device(devices@, *configured) == Some(di as int)) by {
                let k = choose|i: int|
                    0 <= i < devices@.len() && configures(*configured, devices@[i]) && forall|j: int|
                        0 <= j < i ==> !configures(*configured, devices@[j]);
                assert(configures(*configured, devices@[di as int]));
                if k < di {
                } else if k > di {
                }
            }
            let device = &devices[di];
            let info = DirectInputDeviceInfo {
                instance_guid: text,
                product_guid: guid_to_string(&device.product_guid),
                instance_name: device.instance_name.clone(),
                product_name: device.product_name.clone(),
                configured: true,
                configured_ffb: true,
            };
            return Ok((di, info));
        }
        di += 1;
    }
    Err(
        DirectInputError::ConfiguredFfbDeviceNotAttached {
            instance_name: configured.instance_name.clone(),
            instance_guid: configured.instance_guid.clone(),
        },
    )
}

/// The persistent effect objects that the backend keeps on the wheel.
#[derive(Debug, Clone, Copy, PartialEq, Eq, Structural)]
pub enum EffectSlot {
    Constant,
    Sine,
    Spring,
    Damper,
}

impl EffectSlot {
    pub open spec fn name_spec(self) -> &'static str {
        match self {
            EffectSlot::Constant => "constant",
            EffectSlot::Sine => "sine",
            EffectSlot::Spring => "spring",
            EffectSlot::Damper => "damper",
        }
    }

    pub fn name(self) -> (r: &'static str)
        ensures
            r == self.name_spec(),
    {
        match self {
            EffectSlot::Constant => "constant",
            EffectSlot::Sine => "sine",
            EffectSlot::Spring => "spring",
            EffectSlot::Damper => "damper",
        }
    }
}

/// The effect object that carries an effect kind: constant forces, every periodic wave on the
/// sine object, springs and dampers; other kinds have none.
pub open spec fn effect_slot_spec(kind: EffectKind) -> Option<EffectSlot> {
    if kind is Constant {
        Some(EffectSlot::Constant)
    } else if kind.is_periodic_wave() {
        Some(EffectSlot::Sine)
    } else if kind is Spring {
        Some(EffectSlot::Spring)
    } else if kind is Damper {
        Some(EffectSlot::Damper)
    } else {
        None
    }
}

pub fn effect_slot_for_kind(kind: EffectKind) -> (r: Option<EffectSlot>)
    ensures
        r == effect_slot_spec(kind),
{
    match kind {
        EffectKind::Constant => Some(EffectSlot::Constant),
        EffectKind::Sine
        | EffectKind::Square
        | EffectKind::Triangle
        | EffectKind::SawUp
        | EffectKind::SawDown => Some(EffectSlot::Sine),
        EffectKind::Spring => Some(EffectSlot::Spring),
        EffectKind::Damper => Some(EffectSlot::Damper),
        _ => None,
    }
}

/// The DirectInput command code of a device-control request.
pub open spec fn device_control_code_spec(control: DeviceControlCommand) -> u32 {
    match control {
        DeviceControlCommand::Reset => DISFFC_RESET,
        DeviceControlCommand::StopAll => DISFFC_STOPALL,
        DeviceControlCommand::Pause => DISFFC_PAUSE,
        DeviceControlCommand::Continue => DISFFC_CONTINUE,
    }
}

pub fn device_control_code(control: DeviceControlCommand) -> (r: u32)
    ensures
        r == device_control_code_spec(control),
{
    match control {
        DeviceControlCommand::Reset => DISFFC_RESET,
        DeviceControlCommand::StopAll => DISFFC_STOPALL,
        DeviceControlCommand::Pause => DISFFC_PAUSE,
        DeviceControlCommand::Continue => DISFFC_CONTINUE,
    }
}

/// The general parameters of an effect update.
#[derive(Debug, Clone, Copy, PartialEq, Eq, Structural)]
pub struct EffectTiming {
    pub flags: u32,
    pub duration_us: u32,
    pub sample_period: u32,
    pub gain: u32,
    pub trigger_button: u32,
    pub trigger_repeat_interval: u32,
    pub axis_count: u32,
}

/// Effect parameters addressed by object ids and cartesian directions: the duration in
/// microseconds, the gain clamped to `0..=10000`, no trigger button for a negative button.
pub open spec fn effect_timing_spec(
    gain: i32,
    duration_ms: i32,
    sample_period: u32,
    trigger_button: i32,
    trigger_repeat_interval: u32,
    axis_count: u32,
) -> EffectTiming {
    EffectTiming {
        flags: DIEFF_OBJECTIDS | DIEFF_CARTESIAN,
        duration_us: ms_to_us_spec(duration_ms),
        sample_period,
        gain: if gain < 0 {
            0
        } else if gain > 10_000 {
            10_000
        } else {
            gain as u32
        },
        trigger_button: if trigger_button < 0 {
            DIEB_NOTRIGGER
        } else {
            trigger_button as u32
        },
        trigger_repeat_interval,
        axis_count,
    }
}

pub fn make_effect_timing(
    gain: i32,
    duration_ms: i32,
    sample_period: u32,
    trigger_button: i32,
    trigger_repeat_interval: u32,
    axis_count: u32,
) -> (r: EffectTiming)
    ensures
        r == effect_timing_spec(
            gain,
            duration_ms,
            sample_period,
            trigger_button,
            trigger_repeat_interval,
            axis_count,
        ),
{
    EffectTiming {
        flags: DIEFF_OBJECTIDS | DIEFF_CARTESIAN,
        duration_us: ms_to_us(duration_ms),
        sample_period,
        gain: clamp_unsigned_10k(gain),
        trigger_button: if trigger_button < 0 {
            DIEB_NOTRIGGER
        } else {
            trigger_button as u32
        },
        trigger_repeat_interval,
        axis_count,
    }
}

/// The type-specific parameters of an effect update.
#[derive(Debug, Clone, Copy, PartialEq, Eq, Structural)]
pub enum TypeSpecificParams {
    Constant { magnitude: i32 },
    Periodic { magnitude: u32, offset: i32, phase: u32, period_us: u32 },
    Condition {
        offset: i32,
        positive_coefficient: i32,
        negative_coefficient: i32,
        positive_saturation: u32,
        negative_saturation: u32,
        dead_band: i32,
    },
}

/// What the backend does on the wheel for one command.
#[derive(Debug, Clone, Copy, PartialEq, Eq, Structural)]
pub enum EffectAction {
    Nothing,
    DeviceControl(u32),
    Stop(EffectSlot),
    Update { slot: EffectSlot, direction: i32, params: TypeSpecificParams, timing: EffectTiming },
}

pub open spec fn clamp_signed_10k_spec(v: i32) -> i32 {
    if v < -10_000 {
        -10_000i32
    } else if v > 10_000 {
        10_000
    } else {
        v
    }
}

pub open spec fn clamp_unsigned_10k_spec(v: i32) -> u32 {
    if v < 0 {
        0
    } else if v > 10_000 {
        10_000
    } else {
        v as u32
    }
}

/// The action for a condition command: an update of its kind's object, or nothing for kinds
/// without one.
pub open spec fn condition_action(c: ConditionCommand) -> EffectAction {
    match effect_slot_spec(c.kind) {
        Some(slot) => EffectAction::Update {
            slot,
            direction: c.metadata.direction as i32,
            params: TypeSpecificParams::Condition {
                offset: c.center_point_offset as i32,
                positive_coefficient: c.positive_coefficient,
                negative_coefficient: c.negative_coefficient,
                positive_saturation: clamp_unsigned_10k_spec(c.positive_saturation),
                negative_saturation: clamp_unsigned_10k_spec(c.negative_saturation),
                dead_band: c.dead_band,
            },
            timing: effect_timing_spec(
                c.metadata.gain,
                c.metadata.duration_ms,
                c.metadata.sample_period as u32,
                c.metadata.trigger_button,
                c.metadata.trigger_repeat_interval as u32,
                1,
            ),
        },
        None => EffectAction::Nothing,
    }
}

/// The action for a wheel command on the first actuator.
pub open spec fn plan_command_spec(command: WheelCommand) -> EffectAction {
    match command {
        WheelCommand::Ignore => EffectAction::Nothing,
        WheelCommand::DeviceControl(c) => EffectAction::DeviceControl(device_control_code_spec(c)),
        WheelCommand::StopEffect(kind) => match effect_slot_spec(kind) {
            Some(slot) => EffectAction::Stop(slot),
            None => EffectAction::Nothing,
        },
        WheelCommand::Constant(c) => EffectAction::Update {
            slot: EffectSlot::Constant,
            direction: c.metadata.direction as i32,
            params: TypeSpecificParams::Constant { magnitude: clamp_signed_10k_spec(c.magnitude) },
            timing: effect_timing_spec(
                c.metadata.gain,
                c.metadata.duration_ms,
                c.metadata.sample_period as u32,
                c.metadata.trigger_button,
                c.metadata.trigger_repeat_interval as u32,
                1,
            ),
        },
        WheelCommand::Periodic(c) => EffectAction::Update {
            slot: EffectSlot::Sine,
            direction: c.metadata.direction as i32,
            params: TypeSpecificParams::Periodic {
                magnitude: clamp_unsigned_10k_spec(c.magnitude),
                offset: clamp_signed_10k_spec(c.offset as i32),
                phase: if c.phase < 0 {
                    0
                } else {
                    c.phase as u32
                },
                period_us: ms_to_us_spec(c.period),
            },
            timing: effect_timing_spec(
                c.metadata.gain,
                c.metadata.duration_ms,
                c.metadata.sample_period as u32,
                c.metadata.trigger_button,
                c.metadata.trigger_repeat_interval as u32,
                1,
            ),
        },
        WheelCommand::Condition(c) => condition_action(c),
    }
}

/// Decides what the backend does on the wheel for one command.
pub fn plan_command(command: &WheelCommand) -> (r: EffectAction)
    ensures
        r == plan_command_spec(*command),
{
    match command {
        WheelCommand::Ignore => EffectAction::Nothing,
        WheelCommand::DeviceControl(c) => EffectAction::DeviceControl(device_control_code(*c)),
        WheelCommand::StopEffect(kind) => match effect_slot_for_kind(*kind) {
            Some(slot) => EffectAction::Stop(slot),
            None => EffectAction::Nothing,
        },
        WheelCommand::Constant(c) => EffectAction::Update {
            slot: EffectSlot::Constant,
            direction: c.metadata.direction as i32,
            params: TypeSpecificParams::Constant { magnitude: clamp_signed_10k(c.magnitude) },
            timing: make_effect_timing(
                c.metadata.gain,
                c.metadata.duration_ms,
                c.metadata.sample_period as u32,
                c.metadata.trigger_button,
                c.metadata.trigger_repeat_interval as u32,
                1,
            ),
        },
        WheelCommand::Periodic(c) => EffectAction::Update {
            slot: EffectSlot::Sine,
            direction: c.metadata.direction as i32,
            params: TypeSpecificParams::Periodic {
                magnitude: clamp_unsigned_10k(c.magnitude),
                offset: clamp_signed_10k(c.offset as i32),
                phase: if c.phase < 0 {
                    0
                } else {
                    c.phase as u32
                },
                period_us: ms_to_us(c.period),
            },
            timing: make_effect_timing(
                c.metadata.gain,
                c.metadata.duration_ms,
                c.metadata.sample_period as u32,
                c.metadata.trigger_button,
                c.metadata.trigger_repeat_interval as u32,
                1,
            ),
        },
        WheelCommand::Condition(c) => match effect_slot_for_kind(c.kind) {
            Some(slot) => EffectAction::Update {
                slot,
                direction: c.metadata.direction as i32,
                params: TypeSpecificParams::Condition {
                    offset: c.center_point_offset as i32,
                    positive_coefficient: c.positive_coefficient,
                    negative_coefficient: c.negative_coefficient,
                    positive_saturation: clamp_unsigned_10k(c.positive_saturation),
                    negative_saturation: clamp_unsigned_10k(c.negative_saturation),
                    dead_band: c.dead_band,
                },
                timing: make_effect_timing(
                    c.metadata.gain,
                    c.metadata.duration_ms,
                    c.metadata.sample_period as u32,
                    c.metadata.trigger_button,
                    c.metadata.trigger_repeat_interval as u32,
                    1,
                ),
            },
            None => EffectAction::Nothing,
        },
    }
}

/// Whether an effect must be started after its parameters were set: it is not playing yet.
pub fn needs_start(status: u32) -> (r: bool)
    ensures
        r == (status & DIES_PLAYING == 0),
{
    status & DIES_PLAYING == 0
}

/// A periodic command is planned as an update of the sine slot whose period is the command's
/// period in microseconds: a thousand times the milliseconds, `u32::MAX` where that does not fit,
/// and infinite for a negative period. Its duration is converted the same way.
pub proof fn lemma_periodic_plan_in_microseconds(c: PeriodicCommand)
    ensures
        plan_command_spec(WheelCommand::Periodic(c)) matches EffectAction::Update {
            slot: EffectSlot::Sine,
            params: TypeSpecificParams::Periodic { period_us, .. },
            timing,
            ..
        } && (c.period < 0 ==> period_us == INFINITE_DURATION) && (0 <= c.period && c.period * 1000
            <= u32::MAX ==> period_us == c.period * 1000) && (c.period * 1000 > u32::MAX
            ==> period_us == u32::MAX) && (c.metadata.duration_ms < 0 ==> timing.duration_us
            == INFINITE_DURATION) && (0 <= c.metadata.duration_ms && c.metadata.duration_ms * 1000
            <= u32::MAX ==> timing.duration_us == c.metadata.duration_ms * 1000) && (
        c.metadata.duration_ms * 1000 > u32::MAX ==> timing.duration_us == u32::MAX),
{
}

} // verus!
