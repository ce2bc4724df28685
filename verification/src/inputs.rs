use vstd::prelude::*;
use crate::domain::InputFrame;

verus! {

/// Status code of a successful WinMM call.
pub const JOYERR_NOERROR: u32 = 0;

/// WinMM status code for a joystick id with no device behind it.
pub const JOYERR_UNPLUGGED: u32 = 165;

/// WinMM's POV reading for a centered hat.
pub const JOY_POVCENTERED: u32 = 0x0000_FFFF;

/// A WinMM joystick as the device list reports it.
#[derive(Debug, Clone)]
pub struct WinmmDeviceInfo {
    pub id: u32,
    pub name: String,
    pub axis_count: u32,
    pub button_count: u32,
}

/// Errors of the WinMM input backend.
#[derive(Debug)]
pub enum WinmmError {
    /// A WinMM call failed.
    Api { function: &'static str, device_id: u32, code: u32 },
    /// WinMM input polling is only supported on Windows.
    UnsupportedPlatform,
}

/// How a capability query for a joystick id came out: `Ok(true)` when the device is present,
/// `Ok(false)` when nothing is plugged in at that id, the call's error otherwise.
pub fn caps_query_result(id: u32, code: u32) -> (r: Result<bool, WinmmError>)
    ensures
        code == JOYERR_NOERROR ==> r == Ok::<bool, WinmmError>(true),
        code == JOYERR_UNPLUGGED ==> r == Ok::<bool, WinmmError>(false),
        code != JOYERR_NOERROR && code != JOYERR_UNPLUGGED ==> (r matches Err(WinmmError::Api { function, device_id, code: c })
            && function == "joyGetDevCapsW" && device_id == id && c == code),
{
    if code == JOYERR_NOERROR {
        Ok(true)
    } else if code == JOYERR_UNPLUGGED {
        Ok(false)
    } else {
        Err(WinmmError::Api { function: "joyGetDevCapsW", device_id: id, code })
    }
}

/// The error for opening an id with no device behind it.
pub fn device_not_present(id: u32) -> (r: WinmmError)
    ensures
        r matches WinmmError::Api { function, device_id, code } && function == "joyGetDevCapsW"
            && device_id == id && code == 0,
{
    WinmmError::Api { function: "joyGetDevCapsW", device_id: id, code: 0 }
}

/// How a position poll came out: success, or the call's error.
pub fn poll_result(id: u32, code: u32) -> (r: Result<(), WinmmError>)
    ensures
        code == JOYERR_NOERROR <==> r is Ok,
        r matches Err(e) ==> (e matches WinmmError::Api { function, device_id, code: c }
            && function == "joyGetPosEx" && device_id == id && c == code),
{
    if code == JOYERR_NOERROR {
        Ok(())
    } else {
        Err(WinmmError::Api { function: "joyGetPosEx", device_id: id, code })
    }
}

/// An opened WinMM joystick: its id and its product name.
#[derive(Debug, Clone)]
pub struct WinmmJoystick {
    id: u32,
    name: String,
}

impl WinmmJoystick {
    pub closed spec fn id_spec(&self) -> u32 {
        self.id
    }

    pub closed spec fn name_spec(&self) -> Seq<char> {
        self.name@
    }

    /// A joystick opened at `id` whose capabilities named it `name`.
    pub fn opened(id: u32, name: String) -> (r: Self)
        ensures
            r.id_spec() == id,
            r.name_spec() == name@,
    {
        WinmmJoystick { id, name }
    }

    pub fn id(&self) -> (r: u32)
        ensures
            r == self.id_spec(),
    {
        self.id
    }

    pub fn name(&self) -> (r: &str)
        ensures
            r@ == self.name_spec(),
    {
        self.name.as_str()
    }
}

impl WinmmJoystick {
    /// Lists the joysticks that WinMM knows of. This build has no WinMM backend, so the listing
    /// fails with `UnsupportedPlatform`.
    pub fn list_devices() -> (r: Result<Vec<WinmmDeviceInfo>, WinmmError>)
        ensures
            r matches Err(WinmmError::UnsupportedPlatform),
    {
        Err(WinmmError::UnsupportedPlatform)
    }

    /// Opens the joystick at `id`. This build has no WinMM backend, so opening fails with
    /// `UnsupportedPlatform`.
    pub fn open(id: u32) -> (r: Result<Self, WinmmError>)
        ensures
            r matches Err(WinmmError::UnsupportedPlatform),
    {
        Err(WinmmError::UnsupportedPlatform)
    }

    /// Polls the joystick. This build has no WinMM backend, so polling fails with
    /// `UnsupportedPlatform` and leaves the joystick as it was.
    pub fn poll_input_frame(&mut self) -> (r: Result<InputFrame, WinmmError>)
        ensures
            r matches Err(WinmmError::UnsupportedPlatform),
            *final(self) == *old(self),
    {
        Err(WinmmError::UnsupportedPlatform)
    }
}

impl WinmmDeviceInfo {
    /// The device-list entry for a joystick whose capabilities were read at `id`: its name is
    /// the text of the zero-terminated product-name buffer.
    pub fn from_caps(id: u32, name_units: &[u16], axis_count: u32, button_count: u32) -> (r: Self)
        ensures
            r.id == id,
            r.name@ == utf16_lossy_text(until_nul(name_units@)),
            r.axis_count == axis_count,
            r.button_count == button_count,
    {
        WinmmDeviceInfo { id, name: utf16_to_string(name_units), axis_count, button_count }
    }
}

/// The centre reading that WinMM's backend reports for the two sliders it does not poll.
pub const SLIDER_CENTER: i32 = 32_767;

/// The input frame for one successful WinMM position poll, given the six axis readings already
/// scaled to the 0..=65535 range, the button mask, the device's button count and the POV reading.
pub fn frame_from_poll(axes: [i32; 6], buttons: u32, button_count: usize, pov: u32) -> (r: InputFrame)
    requires
        button_count <= 32,
    ensures
        r.x == axes[0] && r.y == axes[1] && r.z == axes[2],
        r.rotation_x == axes[3] && r.rotation_y == axes[4] && r.rotation_z == axes[5],
        r.sliders@ == seq![SLIDER_CENTER, SLIDER_CENTER],
        r.buttons@.len() == 32,
        forall|i: int| 0 <= i < 32 ==> r.buttons@[i] == ((buttons >> (i as u32)) & 1 == 1),
        r.point_of_view_controllers@ == seq![if pov == JOY_POVCENTERED { -1i32 } else { pov as i32 }],
{
    let mut povs: Vec<i32> = Vec::new();
    povs.push(decode_pov(pov));
    let r = InputFrame {
        x: axes[0],
        y: axes[1],
        z: axes[2],
        rotation_x: axes[3],
        rotation_y: axes[4],
        rotation_z: axes[5],
        sliders: [SLIDER_CENTER, SLIDER_CENTER],
        buttons: decode_buttons(buttons, button_count),
        point_of_view_controllers: povs,
    };
    assert(r.sliders@ =~= seq![SLIDER_CENTER, SLIDER_CENTER]);
    assert(r.point_of_view_controllers@ =~= seq![if pov == JOY_POVCENTERED { -1i32 } else { pov as i32 }]);
    r
}

/// The text that a sequence of UTF-16 units decodes to, with every invalid unit replaced by the
/// replacement character.
pub uninterp spec fn utf16_lossy_text(units: Seq<u16>) -> Seq<char>;

/// Decodes UTF-16 units.
///
/// Trusted: calls `String::from_utf16_lossy`, which decodes the units and replaces invalid
/// ones with U+FFFD; the contract says only that the result is the value `utf16_lossy_text`
/// names for these units.
#[verifier::external_body]
fn decode_utf16_lossy(units: &[u16]) -> (r: String)
    ensures
        r@ == utf16_lossy_text(units@),
{
    String::from_utf16_lossy(units)
}

/// The units of a fixed-size name buffer before its first zero unit (all of them when there is
/// none).
pub open spec fn until_nul(raw: Seq<u16>) -> Seq<u16> {
    if exists|i: int| 0 <= i < raw.len() && raw[i] == 0 {
        raw.take(choose|i: int| 0 <= i < raw.len() && raw[i] == 0 && forall|j: int| 0 <= j < i ==> raw[j] != 0)
    } else {
        raw
    }
}

/// The text of a zero-terminated UTF-16 name buffer.
pub fn utf16_to_string(raw: &[u16]) -> (r: String)
    ensures
        r@ == utf16_lossy_text(until_nul(raw@)),
{
    let mut end: usize = 0;
    while end < raw.len() && raw[end] != 0
        invariant
            end <= raw@.len(),
            forall|j: int| 0 <= j < end ==> raw@[j] != 0,
        decreases raw@.len() - end,
    {
        end += 1;
    }
    proof {
        if end < raw@.len() {
            let k = choose|i: int|
                0 <= i < raw@.len() && raw@[i] == 0 && forall|j: int| 0 <= j < i ==> raw@[j] != 0;
            assert(raw@[end as int] == 0);
            if k < end {
            } else if k > end {
            }
            assert(until_nul(raw@) == raw@.take(end as int));
        } else {
            assert(raw@.take(end as int) =~= raw@);
        }
    }
    let mut prefix: Vec<u16> = Vec::new();
    let mut i: usize = 0;
    while i < end
        invariant
            end <= raw@.len(),
            i <= end,
            prefix@ == raw@.take(i as int),
        decreases end - i,
    {
        prefix.push(raw[i]);
        i += 1;
        assert(prefix@ =~= raw@.take(i as int));
    }
    decode_utf16_lossy(prefix.as_slice())
}

/// The first 32 buttons of a WinMM button mask: button `i` is bit `i`.
pub fn decode_buttons(bits: u32, button_count: usize) -> (r: Vec<bool>)
    requires
        button_count <= 32,
    ensures
        r@.len() == 32,
        forall|i: int| 0 <= i < 32 ==> r@[i] == ((bits >> (i as u32)) & 1 == 1),
{
    let count: usize = if button_count > 32 { button_count } else { 32 };
    let mut out: Vec<bool> = Vec::new();
    let mut index: usize = 0;
    while index < count
        invariant
            count == 32,
            index <= count,
            out@.len() == index,
            forall|i: int| 0 <= i < index ==> out@[i] == ((bits >> (i as u32)) & 1 == 1),
        decreases count - index,
    {
        let shift: u32 = index as u32;
        let pressed = bits & (1u32 << shift) != 0;
        assert(pressed == ((bits >> shift) & 1 == 1)) by (bit_vector)
            requires
                shift < 32,
                pressed == (bits & (1u32 << shift) != 0),
        ;
        out.push(pressed);
        index += 1;
    }
    out
}

/// A WinMM POV reading as an angle in hundredths of a degree, or -1 when the hat is centered.
pub fn decode_pov(pov: u32) -> (r: i32)
    ensures
        r == (if pov == JOY_POVCENTERED {
            -1i32
        } else {
            pov as i32
        }),
{
    if pov == JOY_POVCENTERED {
        -1
    } else {
        pov as i32
    }
}

} // verus!
