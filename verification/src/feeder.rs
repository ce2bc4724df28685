use vstd::prelude::*;

use crate::config::{ButtonConfig, ButtonId, DPadConfig};
use crate::domain::InputFrame;
use crate::text::str_eq;

verus! {

/// The axes of an input device, in the order the configuration numbers them.
#[derive(Debug, Clone, Copy, PartialEq, Eq, Structural)]
pub enum AxisKind {
    X,
    Y,
    Z,
    RotationX,
    RotationY,
    RotationZ,
    Sliders0,
    Sliders1,
}

impl AxisKind {
    pub open spec fn from_index_spec(index: i32) -> Option<AxisKind> {
        if index == 0 {
            Some(AxisKind::X)
        } else if index == 1 {
            Some(AxisKind::Y)
        } else if index == 2 {
            Some(AxisKind::Z)
        } else if index == 3 {
            Some(AxisKind::RotationX)
        } else if index == 4 {
            Some(AxisKind::RotationY)
        } else if index == 5 {
            Some(AxisKind::RotationZ)
        } else if index == 6 {
            Some(AxisKind::Sliders0)
        } else if index == 7 {
            Some(AxisKind::Sliders1)
        } else {
            None
        }
    }

    pub fn from_index(index: i32) -> (r: Option<Self>)
        ensures
            r == Self::from_index_spec(index),
    {
        match index {
            0 => Some(Self::X),
            1 => Some(Self::Y),
            2 => Some(Self::Z),
            3 => Some(Self::RotationX),
            4 => Some(Self::RotationY),
            5 => Some(Self::RotationZ),
            6 => Some(Self::Sliders0),
            7 => Some(Self::Sliders1),
            _ => None,
        }
    }
}

/// The role that a configured axis plays in the virtual device.
#[derive(Debug, Clone, Copy, PartialEq, Eq, Structural)]
pub enum AxisRole {
    Steering,
    Combined,
    Throttle,
    Brake,
    Clutch,
    Handbrake,
}

impl AxisRole {
    pub open spec fn from_id_spec(id: Seq<char>) -> Option<AxisRole> {
        if id == "Steering"@ {
            Some(AxisRole::Steering)
        } else if id == "Combined"@ {
            Some(AxisRole::Combined)
        } else if id == "Throttle"@ {
            Some(AxisRole::Throttle)
        } else if id == "Brake"@ {
            Some(AxisRole::Brake)
        } else if id == "Clutch"@ {
            Some(AxisRole::Clutch)
        } else if id == "Handbrake"@ {
            Some(AxisRole::Handbrake)
        } else {
            None
        }
    }

    /// The role an axis identifier names; other identifiers name no role.
    pub fn from_id(id: &str) -> (r: Option<AxisRole>)
        ensures
            r == Self::from_id_spec(id@),
    {
        if str_eq(id, "Steering") {
            Some(AxisRole::Steering)
        } else if str_eq(id, "Combined") {
            Some(AxisRole::Combined)
        } else if str_eq(id, "Throttle") {
            Some(AxisRole::Throttle)
        } else if str_eq(id, "Brake") {
            Some(AxisRole::Brake)
        } else if str_eq(id, "Clutch") {
            Some(AxisRole::Clutch)
        } else if str_eq(id, "Handbrake") {
            Some(AxisRole::Handbrake)
        } else {
            None
        }
    }
}

/// A physical button bound to a button of the virtual device.
#[derive(Debug, Clone, Copy, PartialEq, Eq, Structural)]
pub struct ButtonData {
    pub controller_index: usize,
    pub button_index: usize,
    pub button_bind: usize,
}

/// The physical POV hat that drives the virtual d-pad.
#[derive(Debug, Clone, Copy, PartialEq, Eq, Structural)]
pub struct DPadData {
    pub controller_index: usize,
    pub dpad_index: usize,
}

/// One input frame as the feeder reads it.
#[derive(Debug, Clone)]
pub struct InputSnapshot {
    pub x: i32,
    pub y: i32,
    pub z: i32,
    pub rotation_x: i32,
    pub rotation_y: i32,
    pub rotation_z: i32,
    pub sliders: [i32; 2],
    pub buttons: Vec<bool>,
    pub point_of_view_controllers: Vec<i32>,
}

impl InputSnapshot {
    pub open spec fn axis_value_spec(&self, axis: AxisKind) -> i32 {
        match axis {
            AxisKind::X => self.x,
            AxisKind::Y => self.y,
            AxisKind::Z => self.z,
            AxisKind::RotationX => self.rotation_x,
            AxisKind::RotationY => self.rotation_y,
            AxisKind::RotationZ => self.rotation_z,
            AxisKind::Sliders0 => self.sliders[0],
            AxisKind::Sliders1 => self.sliders[1],
        }
    }

    pub fn axis_value(&self, axis: AxisKind) -> (r: i32)
        ensures
            r == self.axis_value_spec(axis),
    {
        match axis {
            AxisKind::X => self.x,
            AxisKind::Y => self.y,
            AxisKind::Z => self.z,
            AxisKind::RotationX => self.rotation_x,
            AxisKind::RotationY => self.rotation_y,
            AxisKind::RotationZ => self.rotation_z,
            AxisKind::Sliders0 => self.sliders[0],
            AxisKind::Sliders1 => self.sliders[1],
        }
    }

    /// A snapshot holding the same values as the frame.
    pub fn from_frame(frame: &InputFrame) -> (r: Self)
        ensures
            r.x == frame.x && r.y == frame.y && r.z == frame.z,
            r.rotation_x == frame.rotation_x && r.rotation_y == frame.rotation_y && r.rotation_z
                == frame.rotation_z,
            r.sliders@ == frame.sliders@,
            r.buttons@ == frame.buttons@,
            r.point_of_view_controllers@ == frame.point_of_view_controllers@,
    {
        InputSnapshot {
            x: frame.x,
            y: frame.y,
            z: frame.z,
            rotation_x: frame.rotation_x,
            rotation_y: frame.rotation_y,
            rotation_z: frame.rotation_z,
            sliders: frame.sliders,
            buttons: copy_bools(&frame.buttons),
            point_of_view_controllers: copy_i32s(&frame.point_of_view_controllers),
        }
    }
}

fn copy_bools(v: &Vec<bool>) -> (r: Vec<bool>)
    ensures
        r@ == v@,
{
    let mut out: Vec<bool> = Vec::new();
    let mut i: usize = 0;
    while i < v.len()
        invariant
            i <= v@.len(),
            out@ == v@.take(i as int),
        decreases v@.len() - i,
    {
        out.push(v[i]);
        i += 1;
        assert(out@ =~= v@.take(i as int));
    }
    assert(v@.take(v@.len() as int) =~= v@);
    out
}

fn copy_i32s(v: &Vec<i32>) -> (r: Vec<i32>)
    ensures
        r@ == v@,
{
    let mut out: Vec<i32> = Vec::new();
    let mut i: usize = 0;
    while i < v.len()
        invariant
            i <= v@.len(),
            out@ == v@.take(i as int),
        decreases v@.len() - i,
    {
        out.push(v[i]);
        i += 1;
        assert(out@ =~= v@.take(i as int));
    }
    assert(v@.take(v@.len() as int) =~= v@);
    out
}

/// The button names and the virtual buttons they bind to, in binding order.
pub open spec fn named_button_bind(name: Seq<char>) -> Option<usize> {
    if name == "XboxView"@ {
        Some(0)
    } else if name == "XboxMenu"@ {
        Some(1)
    } else if name == "XBoxA"@ {
        Some(2)
    } else if name == "XBoxB"@ {
        Some(3)
    } else if name == "XBoxX"@ {
        Some(4)
    } else if name == "XBoxY"@ {
        Some(5)
    } else if name == "Button7"@ {
        Some(6)
    } else if name == "Button8"@ {
        Some(7)
    } else if name == "Button9"@ {
        Some(8)
    } else if name == "Button10"@ {
        Some(9)
    } else if name == "Button11"@ {
        Some(10)
    } else if name == "Button12"@ {
        Some(11)
    } else if name == "Button13"@ {
        Some(12)
    } else if name == "Button14"@ {
        Some(13)
    } else if name == "Button15"@ {
        Some(14)
    } else if name == "Button16"@ {
        Some(15)
    } else if name == "PreviousGear"@ {
        Some(16)
    } else if name == "NextGear"@ {
        Some(17)
    } else if name == "ReverseGear"@ {
        Some(18)
    } else if name == "ForwardGear1"@ {
        Some(19)
    } else if name == "ForwardGear2"@ {
        Some(20)
    } else if name == "ForwardGear3"@ {
        Some(21)
    } else if name == "ForwardGear4"@ {
        Some(22)
    } else if name == "ForwardGear5"@ {
        Some(23)
    } else if name == "ForwardGear6"@ {
        Some(24)
    } else if name == "ForwardGear7"@ {
        Some(25)
    } else if name == "Button27"@ {
        Some(26)
    } else if name == "Button28"@ {
        Some(27)
    } else if name == "Button29"@ {
        Some(28)
    } else if name == "Button30"@ {
        Some(29)
    } else if name == "Button31"@ {
        Some(30)
    } else if name == "Button32"@ {
        Some(31)
    } else {
        None
    }
}

/// The virtual button a configured button binds to: a number binds to itself when it is a valid
/// index, a name binds as `named_button_bind` says, anything else binds nothing.
pub open spec fn button_bind_spec(button: ButtonConfig) -> Option<usize> {
    match button.id {
        ButtonId::Integer(n) => if 0 <= n <= usize::MAX {
            Some(n as usize)
        } else {
            None
        },
        ButtonId::Text(name) => named_button_bind(name@),
        ButtonId::Other => None,
    }
}

/// The published table of button names: a name binds to the virtual button at its position.
pub open spec fn button_name_table() -> Seq<Seq<char>> {
    seq![
        "XboxView"@,
        "XboxMenu"@,
        "XBoxA"@,
        "XBoxB"@,
        "XBoxX"@,
        "XBoxY"@,
        "Button7"@,
        "Button8"@,
        "Button9"@,
        "Button10"@,
        "Button11"@,
        "Button12"@,
        "Button13"@,
        "Button14"@,
        "Button15"@,
        "Button16"@,
        "PreviousGear"@,
        "NextGear"@,
        "ReverseGear"@,
        "ForwardGear1"@,
        "ForwardGear2"@,
        "ForwardGear3"@,
        "ForwardGear4"@,
        "ForwardGear5"@,
        "ForwardGear6"@,
        "ForwardGear7"@,
        "Button27"@,
        "Button28"@,
        "Button29"@,
        "Button30"@,
        "Button31"@,
        "Button32"@,
    ]
}

/// Each button name binds to its position in the published name table, and a name that the
/// table does not hold binds to nothing; a configured button given by name binds the same way.
pub proof fn lemma_button_names_bind_to_table_position(name: Seq<char>, i: int, button: ButtonConfig)
    ensures
        0 <= i < 32 && name == button_name_table()[i] ==> named_button_bind(name) == Some(
            i as usize,
        ),
        named_button_bind(name) matches Some(b) ==> b < 32 && button_name_table()[b as int] == name,
        button.id matches ButtonId::Text(text) ==> button_bind_spec(button) == named_button_bind(
            text@,
        ),
{
    // The names' lengths and their characters at a few positions tell them apart.
    reveal_strlit("XboxView");
    assert("XboxView"@.len() == 8 && "XboxView"@[4] == 'V' && "XboxView"@[6] == 'e' && "XboxView"@[7] == 'w');
    reveal_strlit("XboxMenu");
    assert("XboxMenu"@.len() == 8 && "XboxMenu"@[4] == 'M' && "XboxMenu"@[6] == 'n' && "XboxMenu"@[7] == 'u');
    reveal_strlit("XBoxA");
    assert("XBoxA"@.len() == 5 && "XBoxA"@[4] == 'A');
    reveal_strlit("XBoxB");
    assert("XBoxB"@.len() == 5 && "XBoxB"@[4] == 'B');
    reveal_strlit("XBoxX");
    assert("XBoxX"@.len() == 5 && "XBoxX"@[4] == 'X');
    reveal_strlit("XBoxY");
    assert("XBoxY"@.len() == 5 && "XBoxY"@[4] == 'Y');
    reveal_strlit("Button7");
    assert("Button7"@.len() == 7 && "Button7"@[4] == 'o' && "Button7"@[6] == '7');
    reveal_strlit("Button8");
    assert("Button8"@.len() == 7 && "Button8"@[4] == 'o' && "Button8"@[6] == '8');
    reveal_strlit("Button9");
    assert("Button9"@.len() == 7 && "Button9"@[4] == 'o' && "Button9"@[6] == '9');
    reveal_strlit("Button10");
    assert("Button10"@.len() == 8 && "Button10"@[4] == 'o' && "Button10"@[6] == '1' && "Button10"@[7] == '0');
    reveal_strlit("Button11");
    assert("Button11"@.len() == 8 && "Button11"@[4] == 'o' && "Button11"@[6] == '1' && "Button11"@[7] == '1');
    reveal_strlit("Button12");
    assert("Button12"@.len() == 8 && "Button12"@[4] == 'o' && "Button12"@[6] == '1' && "Button12"@[7] == '2');
    reveal_strlit("Button13");
    assert("Button13"@.len() == 8 && "Button13"@[4] == 'o' && "Button13"@[6] == '1' && "Button13"@[7] == '3');
    reveal_strlit("Button14");
    assert("Button14"@.len() == 8 && "Button14"@[4] == 'o' && "Button14"@[6] == '1' && "Button14"@[7] == '4');
    reveal_strlit("Button15");
    assert("Button15"@.len() == 8 && "Button15"@[4] == 'o' && "Button15"@[6] == '1' && "Button15"@[7] == '5');
    reveal_strlit("Button16");
    assert("Button16"@.len() == 8 && "Button16"@[4] == 'o' && "Button16"@[6] == '1' && "Button16"@[7] == '6');
    reveal_strlit("PreviousGear");
    assert("PreviousGear"@.len() == 12 && "PreviousGear"@[4] == 'i' && "PreviousGear"@[6] == 'u' && "PreviousGear"@[7] == 's' && "PreviousGear"@[11] == 'r');
    reveal_strlit("NextGear");
    assert("NextGear"@.len() == 8 && "NextGear"@[4] == 'G' && "NextGear"@[6] == 'a' && "NextGear"@[7] == 'r');
    reveal_strlit("ReverseGear");
    assert("ReverseGear"@.len() == 11 && "ReverseGear"@[4] == 'r' && "ReverseGear"@[6] == 'e' && "ReverseGear"@[7] == 'G');
    reveal_strlit("ForwardGear1");
    assert("ForwardGear1"@.len() == 12 && "ForwardGear1"@[4] == 'a' && "ForwardGear1"@[6] == 'd' && "ForwardGear1"@[7] == 'G' && "ForwardGear1"@[11] == '1');
    reveal_strlit("ForwardGear2");
    assert("ForwardGear2"@.len() == 12 && "ForwardGear2"@[4] == 'a' && "ForwardGear2"@[6] == 'd' && "ForwardGear2"@[7] == 'G' && "ForwardGear2"@[11] == '2');
    reveal_strlit("ForwardGear3");
    assert("ForwardGear3"@.len() == 12 && "ForwardGear3"@[4] == 'a' && "ForwardGear3"@[6] == 'd' && "ForwardGear3"@[7] == 'G' && "ForwardGear3"@[11] == '3');
    reveal_strlit("ForwardGear4");
    assert("ForwardGear4"@.len() == 12 && "ForwardGear4"@[4] == 'a' && "ForwardGear4"@[6] == 'd' && "ForwardGear4"@[7] == 'G' && "ForwardGear4"@[11] == '4');
    reveal_strlit("ForwardGear5");
    assert("ForwardGear5"@.len() == 12 && "ForwardGear5"@[4] == 'a' && "ForwardGear5"@[6] == 'd' && "ForwardGear5"@[7] == 'G' && "ForwardGear5"@[11] == '5');
    reveal_strlit("ForwardGear6");
    assert("ForwardGear6"@.len() == 12 && "ForwardGear6"@[4] == 'a' && "ForwardGear6"@[6] == 'd' && "ForwardGear6"@[7] == 'G' && "ForwardGear6"@[11] == '6');
    reveal_strlit("ForwardGear7");
    assert("ForwardGear7"@.len() == 12 && "ForwardGear7"@[4] == 'a' && "ForwardGear7"@[6] == 'd' && "ForwardGear7"@[7] == 'G' && "ForwardGear7"@[11] == '7');
    reveal_strlit("Button27");
    assert("Button27"@.len() == 8 && "Button27"@[4] == 'o' && "Button27"@[6] == '2' && "Button27"@[7] == '7');
    reveal_strlit("Button28");
    assert("Button28"@.len() == 8 && "Button28"@[4] == 'o' && "Button28"@[6] == '2' && "Button28"@[7] == '8');
    reveal_strlit("Button29");
    assert("Button29"@.len() == 8 && "Button29"@[4] == 'o' && "Button29"@[6] == '2' && "Button29"@[7] == '9');
    reveal_strlit("Button30");
    assert("Button30"@.len() == 8 && "Button30"@[4] == 'o' && "Button30"@[6] == '3' && "Button30"@[7] == '0');
    reveal_strlit("Button31");
    assert("Button31"@.len() == 8 && "Button31"@[4] == 'o' && "Button31"@[6] == '3' && "Button31"@[7] == '1');
    reveal_strlit("Button32");
    assert("Button32"@.len() == 8 && "Button32"@[4] == 'o' && "Button32"@[6] == '3' && "Button32"@[7] == '2');
}

fn name_bind(name: &str) -> (r: Option<usize>)
    ensures
        r == named_button_bind(name@),
{
    let names: [&str; 32] = [
        "XboxView",
        "XboxMenu",
        "XBoxA",
        "XBoxB",
        "XBoxX",
        "XBoxY",
        "Button7",
        "Button8",
        "Button9",
        "Button10",
        "Button11",
        "Button12",
        "Button13",
        "Button14",
        "Button15",
        "Button16",
        "PreviousGear",
        "NextGear",
        "ReverseGear",
        "ForwardGear1",
        "ForwardGear2",
        "ForwardGear3",
        "ForwardGear4",
        "ForwardGear5",
        "ForwardGear6",
        "ForwardGear7",
        "Button27",
        "Button28",
        "Button29",
        "Button30",
        "Button31",
        "Button32",
    ];
    if str_eq(name, names[0]) {
        Some(0)
    } else if str_eq(name, names[1]) {
        Some(1)
    } else if str_eq(name, names[2]) {
        Some(2)
    } else if str_eq(name, names[3]) {
        Some(3)
    } else if str_eq(name, names[4]) {
        Some(4)
    } else if str_eq(name, names[5]) {
        Some(5)
    } else if str_eq(name, names[6]) {
        Some(6)
    } else if str_eq(name, names[7]) {
        Some(7)
    } else if str_eq(name, names[8]) {
        Some(8)
    } else if str_eq(name, names[9]) {
        Some(9)
    } else if str_eq(name, names[10]) {
        Some(10)
    } else if str_eq(name, names[11]) {
        Some(11)
    } else if str_eq(name, names[12]) {
        Some(12)
    } else if str_eq(name, names[13]) {
        Some(13)
    } else if str_eq(name, names[14]) {
        Some(14)
    } else if str_eq(name, names[15]) {
        Some(15)
    } else if str_eq(name, names[16]) {
        Some(16)
    } else if str_eq(name, names[17]) {
        Some(17)
    } else if str_eq(name, names[18]) {
        Some(18)
    } else if str_eq(name, names[19]) {
        Some(19)
    } else if str_eq(name, names[20]) {
        Some(20)
    } else if str_eq(name, names[21]) {
        Some(21)
    } else if str_eq(name, names[22]) {
        Some(22)
    } else if str_eq(name, names[23]) {
        Some(23)
    } else if str_eq(name, names[24]) {
        Some(24)
    } else if str_eq(name, names[25]) {
        Some(25)
    } else if str_eq(name, names[26]) {
        Some(26)
    } else if str_eq(name, names[27]) {
        Some(27)
    } else if str_eq(name, names[28]) {
        Some(28)
    } else if str_eq(name, names[29]) {
        Some(29)
    } else if str_eq(name, names[30]) {
        Some(30)
    } else if str_eq(name, names[31]) {
        Some(31)
    } else {
        None
    }
}

pub fn button_bind(button: &ButtonConfig) -> (r: Option<usize>)
    ensures
        r == button_bind_spec(*button),
{
    match &button.id {
        ButtonId::Integer(n) => {
            if *n < 0 {
                None
            } else if (*n as u64) > (usize::MAX as u64) {
                None
            } else {
                Some(*n as usize)
            }
        },
        ButtonId::Text(name) => name_bind(name.as_str()),
        ButtonId::Other => None,
    }
}

/// The bindings of one controller's buttons, in configuration order, skipping buttons that
/// bind nothing.
pub open spec fn controller_bindings(controller_index: usize, buttons: Seq<ButtonConfig>) -> Seq<ButtonData>
    decreases buttons.len(),
{
    if buttons.len() == 0 {
        Seq::empty()
    } else {
        let rest = controller_bindings(controller_index, buttons.drop_last());
        match button_bind_spec(buttons.last()) {
            Some(bind) => rest.push(
                ButtonData {
                    controller_index,
                    button_index: buttons.last().index,
                    button_bind: bind,
                },
            ),
            None => rest,
        }
    }
}

/// The bindings of all controllers' buttons, controller by controller, in configuration order.
pub open spec fn all_bindings(controllers: Seq<Option<Vec<ButtonConfig>>>) -> Seq<ButtonData>
    decreases controllers.len(),
{
    if controllers.len() == 0 {
        Seq::empty()
    } else {
        let rest = all_bindings(controllers.drop_last());
        match controllers.last() {
            Some(buttons) => rest + controller_bindings(
                (controllers.len() - 1) as usize,
                buttons@,
            ),
            None => rest,
        }
    }
}

/// `x` inserted into `sorted` after every element whose binding is not greater than its own.
pub open spec fn insert_by_bind(sorted: Seq<ButtonData>, x: ButtonData) -> Seq<ButtonData>
    decreases sorted.len(),
{
    if sorted.len() == 0 {
        seq![x]
    } else if sorted.last().button_bind <= x.button_bind {
        sorted.push(x)
    } else {
        insert_by_bind(sorted.drop_last(), x).push(sorted.last())
    }
}

/// The bindings ordered by virtual button, keeping configuration order among bindings of the
/// same virtual button.
pub open spec fn group_by_bind(entries: Seq<ButtonData>) -> Seq<ButtonData>
    decreases entries.len(),
{
    if entries.len() == 0 {
        entries
    } else {
        insert_by_bind(group_by_bind(entries.drop_last()), entries.last())
    }
}

proof fn lemma_insert_by_bind_at(sorted: Seq<ButtonData>, x: ButtonData, p: int)
    requires
        0 <= p <= sorted.len(),
        forall|j: int| p <= j < sorted.len() ==> sorted[j].button_bind > x.button_bind,
        p == 0 || sorted[p - 1].button_bind <= x.button_bind,
    ensures
        insert_by_bind(sorted, x) == sorted.take(p).push(x) + sorted.skip(p),
    decreases sorted.len(),
{
    if sorted.len() == 0 {
        assert(sorted.take(p).push(x) + sorted.skip(p) =~= seq![x]);
    } else if p == sorted.len() {
        assert(sorted.take(p).push(x) + sorted.skip(p) =~= sorted.push(x));
    } else {
        let d = sorted.drop_last();
        lemma_insert_by_bind_at(d, x, p);
        assert(d.take(p).push(x) + d.skip(p) + seq![sorted.last()] =~= sorted.take(p).push(x)
            + sorted.skip(p));
    }
}

fn insert_sorted(sorted: &mut Vec<ButtonData>, x: ButtonData)
    ensures
        final(sorted)@ == insert_by_bind(old(sorted)@, x),
{
    let mut p: usize = sorted.len();
    while p > 0 && sorted[p - 1].button_bind > x.button_bind
        invariant
            p <= sorted@.len(),
            sorted@ == old(sorted)@,
            forall|j: int| p <= j < sorted@.len() ==> sorted@[j].button_bind > x.button_bind,
        decreases p,
    {
        p -= 1;
    }
    proof {
        lemma_insert_by_bind_at(sorted@, x, p as int);
    }
    sorted.insert(p, x);
    assert(sorted@ =~= old(sorted)@.take(p as int).push(x) + old(sorted)@.skip(p as int));
}

/// Every configured button binding, ordered by virtual button and, within one virtual button,
/// by controller and configuration order.
pub fn button_mappings(controllers: &[Option<Vec<ButtonConfig>>]) -> (r: Vec<ButtonData>)
    ensures
        r@ == group_by_bind(all_bindings(controllers@)),
{
    let mut grouped: Vec<ButtonData> = Vec::new();
    let ghost mut entries: Seq<ButtonData> = Seq::empty();
    let mut c: usize = 0;
    while c < controllers.len()
        invariant
            c <= controllers@.len(),
            entries == all_bindings(controllers@.take(c as int)),
            grouped@ == group_by_bind(entries),
        decreases controllers@.len() - c,
    {
        proof {
            assert(controllers@.take(c + 1).drop_last() =~= controllers@.take(c as int));
        }
        match &controllers[c] {
            Some(buttons) => {
                let mut b: usize = 0;
                let ghost base = entries;
                while b < buttons.len()
                    invariant
                        b <= buttons@.len(),
                        entries == base + controller_bindings(c, buttons@.take(b as int)),
                        grouped@ == group_by_bind(entries),
                    decreases buttons@.len() - b,
                {
                    proof {
                        assert(buttons@.take(b + 1).drop_last() =~= buttons@.take(b as int));
                    }
                    let bind = button_bind(&buttons[b]);
                    match bind {
                        Some(k) => {
                            let data = ButtonData {
                                controller_index: c,
                                button_index: buttons[b].index,
                                button_bind: k,
                            };
                            proof {
                                let next = entries.push(data);
                                assert(next.drop_last() =~= entries);
                                entries = next;
                                assert(entries =~= base + controller_bindings(c, buttons@.take(b + 1)));
                            }
                            insert_sorted(&mut grouped, data);
                        },
                        None => {
                            proof {
                                assert(entries =~= base + controller_bindings(c, buttons@.take(b + 1)));
                            }
                        },
                    }
                    b += 1;
                }
                proof {
                    assert(buttons@.take(buttons@.len() as int) =~= buttons@);
                }
            },
            None => {},
        }
        c += 1;
    }
    assert(controllers@.take(controllers@.len() as int) =~= controllers@);
    grouped
}

/// The d-pad binding: the POV hat of the last controller that configures a d-pad.
pub open spec fn dpad_binding(controllers: Seq<Option<DPadConfig>>) -> Option<DPadData>
    decreases controllers.len(),
{
    if controllers.len() == 0 {
        None
    } else {
        match controllers.last() {
            Some(d) => Some(
                DPadData { controller_index: (controllers.len() - 1) as usize, dpad_index: d.index },
            ),
            None => dpad_binding(controllers.drop_last()),
        }
    }
}

pub fn dpad_mapping(controllers: &[Option<DPadConfig>]) -> (r: Option<DPadData>)
    ensures
        r == dpad_binding(controllers@),
{
    let mut result: Option<DPadData> = None;
    let mut c: usize = 0;
    while c < controllers.len()
        invariant
            c <= controllers@.len(),
            result == dpad_binding(controllers@.take(c as int)),
        decreases controllers@.len() - c,
    {
        proof {
            assert(controllers@.take(c + 1).drop_last() =~= controllers@.take(c as int));
        }
        if let Some(d) = &controllers[c] {
            result = Some(DPadData { controller_index: c, dpad_index: d.index });
        }
        c += 1;
    }
    assert(controllers@.take(controllers@.len() as int) =~= controllers@);
    result
}

/// The POV reading that drives the d-pad: the hat's value, or -1 (centered) when the controller
/// or the hat is absent.
pub open spec fn pov_reading(snapshots: Seq<InputSnapshot>, mapping: DPadData) -> i32 {
    if mapping.controller_index < snapshots.len() && mapping.dpad_index
        < snapshots[mapping.controller_index as int].point_of_view_controllers@.len() {
        snapshots[mapping.controller_index as int].point_of_view_controllers@[mapping.dpad_index as int]
    } else {
        -1i32
    }
}

/// The four d-pad switches for a POV reading: all set when centered, the first for 9000, the
/// second for 18000, the first two for 27000, none otherwise.
pub open spec fn pov_switches(pov: i32) -> Seq<bool> {
    if pov == -1 {
        seq![true, true, true, true]
    } else if pov == 9000 {
        seq![true, false, false, false]
    } else if pov == 18000 {
        seq![false, true, false, false]
    } else if pov == 27000 {
        seq![true, true, false, false]
    } else {
        seq![false, false, false, false]
    }
}

pub fn get_pov_array(snapshots: &[InputSnapshot], mapping: &DPadData) -> (r: [bool; 4])
    ensures
        r@ == pov_switches(pov_reading(snapshots@, *mapping)),
{
    let mut pov: i32 = -1;
    if mapping.controller_index < snapshots.len() {
        let snapshot = &snapshots[mapping.controller_index];
        if mapping.dpad_index < snapshot.point_of_view_controllers.len() {
            pov = snapshot.point_of_view_controllers[mapping.dpad_index];
        }
    }
    let mut out = [true, true, true, true];
    if pov != -1 {
        out = [false, false, false, false];
        if pov == 9000 {
            out[0] = true;
        } else if pov == 18000 {
            out[1] = true;
        } else if pov == 27000 {
            out[0] = true;
            out[1] = true;
        }
    }
    assert(out@ =~= pov_switches(pov_reading(snapshots@, *mapping)));
    out
}

/// Whether the physical button of a binding is pressed; absent controllers and buttons read as
/// released.
pub open spec fn binding_pressed(snapshots: Seq<InputSnapshot>, button: ButtonData) -> bool {
    button.controller_index < snapshots.len() && button.button_index
        < snapshots[button.controller_index as int].buttons@.len()
        && snapshots[button.controller_index as int].buttons@[button.button_index as int]
}

/// Virtual button `b` is pressed when any physical button bound to it is pressed.
pub open spec fn virtual_button_pressed(
    snapshots: Seq<InputSnapshot>,
    mapping: Seq<ButtonData>,
    b: int,
) -> bool {
    exists|i: int|
        0 <= i < mapping.len() && mapping[i].button_bind == b && binding_pressed(
            snapshots,
            mapping[i],
        )
}

pub fn get_button_array(snapshots: &[InputSnapshot], mapping: &[ButtonData]) -> (r: [bool; 128])
    requires
        forall|i: int| 0 <= i < mapping@.len() ==> mapping@[i].button_bind < 128,
    ensures
        forall|b: int| 0 <= b < 128 ==> r@[b] == virtual_button_pressed(snapshots@, mapping@, b),
{
    let mut out = [false; 128];
    let mut k: usize = 0;
    while k < mapping.len()
        invariant
            k <= mapping@.len(),
            forall|i: int| 0 <= i < mapping@.len() ==> mapping@[i].button_bind < 128,
            forall|b: int|
                0 <= b < 128 ==> out@[b] == virtual_button_pressed(
                    snapshots@,
                    mapping@.take(k as int),
                    b,
                ),
        decreases mapping@.len() - k,
    {
        let button = mapping[k];
        let bind = button.button_bind;
        let mut pressed = false;
        if button.controller_index < snapshots.len() {
            let snapshot = &snapshots[button.controller_index];
            if button.button_index < snapshot.buttons.len() {
                pressed = snapshot.buttons[button.button_index];
            }
        }
        assert(pressed == binding_pressed(snapshots@, button));
        let ghost before = out@;
        if !out[bind] {
            out[bind] = pressed;
        }
        proof {
            let m = mapping@.take(k + 1);
            assert(m.drop_last() =~= mapping@.take(k as int));
            assert forall|b: int| 0 <= b < 128 implies out@[b] == virtual_button_pressed(
                snapshots@,
                m,
                b,
            ) by {
                if virtual_button_pressed(snapshots@, mapping@.take(k as int), b) {
                    let i = choose|i: int|
                        0 <= i < k && mapping@.take(k as int)[i].button_bind == b && binding_pressed(
                            snapshots@,
                            mapping@.take(k as int)[i],
                        );
                    assert(m[i] == mapping@.take(k as int)[i]);
                }
                if b == bind && pressed {
                    assert(m[k as int] == button);
                }
                if virtual_button_pressed(snapshots@, m, b) {
                    let i = choose|i: int|
                        0 <= i < m.len() && m[i].button_bind == b && binding_pressed(
                            snapshots@,
                            m[i],
                        );
                    if i < k {
                        assert(m[i] == mapping@.take(k as int)[i]);
                    }
                }
            }
        }
        k += 1;
    }
    assert(mapping@.take(mapping@.len() as int) =~= mapping@);
    out
}

/// The value of `n` consecutive switches read as binary digits, the first switch the least
/// significant.
pub open spec fn bits_value(values: Seq<bool>, start: int, n: nat) -> nat
    decreases n,
{
    if n == 0 {
        0
    } else {
        (if values[start] {
            1nat
        } else {
            0nat
        }) + 2 * bits_value(values, start + 1, (n - 1) as nat)
    }
}

/// The number of switches that byte `k` of a packed sequence of `len` switches holds.
pub open spec fn byte_width(len: int, k: int) -> nat {
    if len - 8 * k >= 8 {
        8
    } else {
        (len - 8 * k) as nat
    }
}

proof fn lemma_bits_value_bound(values: Seq<bool>, start: int, n: nat)
    ensures
        bits_value(values, start, n) < pow2(n),
    decreases n,
{
    if n > 0 {
        lemma_bits_value_bound(values, start + 1, (n - 1) as nat);
        assert(pow2(n) == 2 * pow2((n - 1) as nat));
    }
}

/// Two to the power `n`.
pub open spec fn pow2(n: nat) -> nat
    decreases n,
{
    if n == 0 {
        1
    } else {
        2 * pow2((n - 1) as nat)
    }
}

/// Switch `i` of a group is the binary digit `i` of the group's value.
pub proof fn lemma_bits_value_digit(values: Seq<bool>, start: int, n: nat, i: nat)
    requires
        i < n,
    ensures
        (bits_value(values, start, n) / pow2(i)) % 2 == (if values[start + i] {
            1nat
        } else {
            0nat
        }),
    decreases i,
{
    let v = bits_value(values, start, n);
    let rest = bits_value(values, start + 1, (n - 1) as nat);
    let b: nat = if values[start] { 1 } else { 0 };
    assert(v == b + 2 * rest);
    if i == 0 {
        assert(pow2(0) == 1);
        assert(v / 1 == v);
        assert((b + 2 * rest) % 2 == b);
    } else {
        lemma_bits_value_digit(values, start + 1, (n - 1) as nat, (i - 1) as nat);
        let p = pow2((i - 1) as nat);
        assert(pow2(i) == 2 * p);
        lemma_pow2_positive((i - 1) as nat);
        vstd::arithmetic::div_mod::lemma_div_denominator(v as int, 2, p as int);
        assert((b + 2 * rest) / 2 == rest);
        assert(start + 1 + (i - 1) == start + i);
    }
}

proof fn lemma_pow2_8()
    ensures
        pow2(8) == 256,
{
    reveal_with_fuel(pow2, 9);
}

proof fn lemma_pow2_positive(n: nat)
    ensures
        pow2(n) > 0,
    decreases n,
{
    if n > 0 {
        lemma_pow2_positive((n - 1) as nat);
    }
}

fn pack_byte(values: &[bool], start: usize, n: usize) -> (r: u8)
    requires
        n <= 8,
        start + n <= values@.len(),
    ensures
        r as nat == bits_value(values@, start as int, n as nat),
{
    let len = values.len();
    let mut acc: u32 = 0;
    let mut j: usize = n;
    while j > 0
        invariant
            j <= n,
            n <= 8,
            len == values@.len(),
            start + n <= len,
            acc as nat == bits_value(values@, (start + j) as int, (n - j) as nat),
            acc < pow2((n - j) as nat),
        decreases j,
    {
        j -= 1;
        let bit: u32 = if values[start + j] { 1 } else { 0 };
        proof {
            assert(pow2((n - j) as nat) == 2 * pow2((n - j - 1) as nat));
            lemma_pow2_8();
            lemma_pow2_monotone((n - j) as nat, 8);
        }
        acc = bit + 2 * acc;
        proof {
            lemma_bits_value_bound(values@, (start + j) as int, (n - j) as nat);
        }
    }
    proof {
        lemma_pow2_8();
        lemma_pow2_monotone(n as nat, 8);
    }
    acc as u8
}

proof fn lemma_pow2_monotone(a: nat, b: nat)
    requires
        a <= b,
    ensures
        pow2(a) <= pow2(b),
    decreases b,
{
    if a < b {
        lemma_pow2_monotone(a, (b - 1) as nat);
        lemma_pow2_positive((b - 1) as nat);
    }
}

/// Packs switches eight to a byte, the first switch of each group in the least significant bit;
/// a last, partial group fills the low bits of the last byte.
pub fn pack_bools(values: &[bool]) -> (r: Vec<u8>)
    ensures
        r@.len() == (values@.len() + 7) / 8,
        forall|k: int|
            0 <= k < r@.len() ==> r@[k] as nat == bits_value(
                values@,
                8 * k,
                byte_width(values@.len() as int, k),
            ),
{
    let len = values.len();
    let count = len / 8 + if len % 8 == 0 { 0 } else { 1 };
    let mut out: Vec<u8> = Vec::new();
    let mut k: usize = 0;
    while k < count
        invariant
            len == values@.len(),
            count == (len + 7) / 8,
            k <= count,
            out@.len() == k,
            forall|i: int|
                0 <= i < k ==> out@[i] as nat == bits_value(
                    values@,
                    8 * i,
                    byte_width(len as int, i),
                ),
        decreases count - k,
    {
        let start = 8 * k;
        let n = if len - start >= 8 { 8 } else { len - start };
        let byte = pack_byte(values, start, n);
        out.push(byte);
        k += 1;
    }
    out
}

/// The first 32 switches packed into a little-endian 32-bit word: switch `i` is bit `i`.
pub fn pack_bools_in_u32(values: &[bool; 128]) -> (r: u32)
    ensures
        r as nat == bits_value(values@, 0, 32),
{
    let b0 = pack_byte(values, 0, 8) as u32;
    let b1 = pack_byte(values, 8, 8) as u32;
    let b2 = pack_byte(values, 16, 8) as u32;
    let b3 = pack_byte(values, 24, 8) as u32;
    proof {
        lemma_bits_value_split(values@, 0, 8, 24);
        lemma_bits_value_split(values@, 8, 8, 16);
        lemma_bits_value_split(values@, 16, 8, 8);
        lemma_pow2_8();
    }
    b0 + 256 * (b1 + 256 * (b2 + 256 * b3))
}

/// A group of switches splits into its first `a` switches and the `b` that follow.
proof fn lemma_bits_value_split(values: Seq<bool>, start: int, a: nat, b: nat)
    ensures
        bits_value(values, start, a + b) == bits_value(values, start, a) + pow2(a) * bits_value(
            values,
            start + a,
            b,
        ),
    decreases a,
{
    if a > 0 {
        let a1 = (a - 1) as nat;
        lemma_bits_value_split(values, start + 1, a1, b);
        let bit: nat = if values[start] { 1 } else { 0 };
        let tail = bits_value(values, start + a, b);
        assert(start + 1 + a1 == start + a);
        assert((a + b - 1) as nat == a1 + b);
        assert(bits_value(values, start, a + b) == bit + 2 * bits_value(values, start + 1, a1 + b));
        assert(bits_value(values, start, a) == bit + 2 * bits_value(values, start + 1, a1));
        assert(pow2(a) == 2 * pow2(a1));
        let pa1 = pow2(a1);
        let pa = pow2(a);
        assert(2 * (pa1 * tail) == pa * tail) by (nonlinear_arith)
            requires
                pa == 2 * pa1,
        ;
        assert(bits_value(values, start + 1, a1 + b) == bits_value(values, start + 1, a1) + pa1 * tail);
        assert(bits_value(values, start, a + b) == bits_value(values, start, a) + pa * tail);
    } else {
        assert(pow2(0) == 1);
        assert(bits_value(values, start, 0) == 0);
        assert(start + a == start);
        assert(a + b == b);
    }
}

/// Bit `i` of the packed buttons word is virtual button `i`.
pub proof fn lemma_packed_word_bit(values: Seq<bool>, i: nat)
    requires
        i < 32,
        values.len() >= 32,
    ensures
        (bits_value(values, 0, 32) / pow2(i)) % 2 == (if values[i as int] {
            1nat
        } else {
            0nat
        }),
{
    lemma_bits_value_digit(values, 0, 32, i);
}

} // verus!
