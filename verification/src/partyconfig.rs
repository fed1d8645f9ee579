use vstd::prelude::*;

use crate::text::{append_decimal, spec_decimal};
use crate::bindings::{
    BindType, Button, Stick, bind_code, button_of_code, gamepad_binds, keybinds, scancode_code,
    spec_gamepad_bind, spec_keybind, stick_of_code,
};

verus! {

/// A display mode of the monitor; 0 by 0 stands for the desktop's own resolution.
#[derive(Clone, Copy, Debug, PartialEq, Eq, Structural, Hash)]
pub struct DisplayMode {
    pub width: u32,
    pub height: u32,
}

/// The order of display modes: by height, then by width.
pub open spec fn mode_lt(a: DisplayMode, b: DisplayMode) -> bool {
    a.height < b.height || (a.height == b.height && a.width < b.width)
}

/// How a display mode is listed: "WIDTHxHEIGHT", or the desktop resolution's name.
pub open spec fn spec_mode_label(m: DisplayMode) -> Seq<char> {
    if m.width == 0 && m.height == 0 {
        "Default Desktop Resolution"@
    } else {
        spec_decimal(m.width as nat) + "x"@ + spec_decimal(m.height as nat)
    }
}

/// Whether `s` is in strictly increasing order of `mode_lt`, so that no mode occurs twice.
pub open spec fn modes_sorted(s: Seq<DisplayMode>) -> bool {
    forall|i: int, j: int| 0 <= i < j < s.len() ==> mode_lt(s[i], s[j])
}

impl DisplayMode {
    /// Whether this mode comes before `other`: lower, or as high and narrower.
    pub fn precedes(&self, other: &DisplayMode) -> (r: bool)
        ensures
            r == mode_lt(*self, *other),
    {
        self.height < other.height || (self.height == other.height && self.width < other.width)
    }

    /// The mode as the resolution list shows it; see `spec_mode_label`.
    pub fn label(&self) -> (r: String)
        ensures
            r@ == spec_mode_label(*self),
    {
        if self.width == 0 && self.height == 0 {
            String::from_str("Default Desktop Resolution")
        } else {
            let mut s = String::new();
            append_decimal(&mut s, self.width as u64);
            proof {
                reveal_strlit("x");
            }
            s.append("x");
            append_decimal(&mut s, self.height as u64);
            s
        }
    }
}

/// The resolutions that the configuration tool offers: the desktop's own first, then
/// every distinct mode of the monitor by height and width, with their labels.
pub struct ResolutionInfo {
    display_options: Vec<String>,
    display_modes: Vec<DisplayMode>,
}

impl ResolutionInfo {
    pub closed spec fn modes(self) -> Seq<DisplayMode> {
        self.display_modes@
    }

    /// The labels, one for each mode.
    pub closed spec fn options(self) -> Seq<Seq<char>> {
        self.display_options@.map_values(|s: String| s@)
    }

    /// The list built from the modes the monitor reports, in any order and with repeats.
    pub fn from_modes(modes: &Vec<DisplayMode>) -> (r: Self)
        ensures
            r.modes().len() >= 1,
            r.modes()[0] == (DisplayMode { width: 0, height: 0 }),
            modes_sorted(r.modes().drop_first()),
            forall|m: DisplayMode| #[trigger]
                r.modes().drop_first().contains(m) <==> modes@.contains(m),
            r.options() == r.modes().map_values(|m: DisplayMode| spec_mode_label(m)),
    {
        let mut sorted: Vec<DisplayMode> = Vec::new();
        let n = modes.len();
        let mut i: usize = 0;
        while i < n
            invariant
                n == modes@.len(),
                i <= n,
                modes_sorted(sorted@),
                forall|m: DisplayMode| #[trigger]
                    sorted@.contains(m) <==> modes@.take(i as int).contains(m),
            decreases n - i,
        {
            let m = modes[i];
            let len = sorted.len();
            let mut p: usize = 0;
            while p < len && sorted[p].precedes(&m)
                invariant
                    len == sorted@.len(),
                    p <= len,
                    forall|j: int| 0 <= j < p ==> mode_lt(#[trigger] sorted@[j], m),
                decreases len - p,
            {
                p = p + 1;
            }
            let ghost before = sorted@;
            proof {
                assert(modes@.take(i + 1) =~= modes@.take(i as int).push(m));
            }
            if p < len && sorted[p] == m {
                proof {
                    assert forall|x: DisplayMode| #[trigger]
                        modes@.take(i + 1).contains(x) implies sorted@.contains(x) by {
                        if x == m {
                            assert(sorted@[p as int] == x);
                        } else {
                            let t = modes@.take(i + 1);
                            assert(t[i as int] == m);
                            let k = choose|k: int| 0 <= k < t.len() && t[k] == x;
                            assert(k < i);
                            assert(modes@.take(i as int)[k] == x);
                        }
                    }
                    assert forall|x: DisplayMode| #[trigger]
                        sorted@.contains(x) implies modes@.take(i + 1).contains(x) by {
                        assert(modes@.take(i as int).contains(x));
                        let t = modes@.take(i as int);
                        let k = choose|k: int| 0 <= k < t.len() && t[k] == x;
                        assert(modes@.take(i + 1)[k] == x);
                    }
                }
            } else {
                proof {
                    if p < len {
                        assert(!mode_lt(before[p as int], m));
                        assert(before[p as int] != m);
                        assert(mode_lt(m, before[p as int]));
                    }
                }
                sorted.insert(p, m);
                proof {
                    assert forall|a: int, b: int| 0 <= a < b < sorted@.len() implies mode_lt(
                        sorted@[a],
                        sorted@[b],
                    ) by {
                        if b < p {
                        } else if b == p {
                        } else if a < p {
                            assert(mode_lt(before[a], before[b - 1]) || a == b - 1);
                        } else if a == p {
                            assert(mode_lt(m, before[p as int]));
                            if b - 1 > p {
                                assert(mode_lt(before[p as int], before[b - 1]));
                            }
                        } else {
                        }
                    }
                    assert forall|x: DisplayMode| #[trigger]
                        sorted@.contains(x) implies modes@.take(i + 1).contains(x) by {
                        let k = choose|k: int| 0 <= k < sorted@.len() && sorted@[k] == x;
                        if k == p {
                            assert(modes@.take(i + 1)[i as int] == x);
                        } else {
                            let k2 = if k < p {
                                k
                            } else {
                                k - 1
                            };
                            assert(before[k2] == x);
                            assert(before.contains(x));
                            assert(modes@.take(i as int).contains(x));
                            let t = modes@.take(i as int);
                            let j = choose|j: int| 0 <= j < t.len() && t[j] == x;
                            assert(modes@.take(i + 1)[j] == x);
                        }
                    }
                    assert forall|x: DisplayMode| #[trigger]
                        modes@.take(i + 1).contains(x) implies sorted@.contains(x) by {
                        if x == m {
                            assert(sorted@[p as int] == x);
                        } else {
                            let t = modes@.take(i + 1);
                            assert(t[i as int] == m);
                            let k0 = choose|k: int| 0 <= k < t.len() && t[k] == x;
                            assert(k0 < i);
                            assert(modes@.take(i as int)[k0] == x);
                            assert(modes@.take(i as int).contains(x));
                            assert(before.contains(x));
                            let k = choose|k: int| 0 <= k < before.len() && before[k] == x;
                            if k < p {
                                assert(sorted@[k] == x);
                            } else {
                                assert(sorted@[k + 1] == x);
                            }
                        }
                    }
                }
            }
            i = i + 1;
        }
        proof {
            assert(modes@.take(n as int) =~= modes@);
        }
        let mut display_modes: Vec<DisplayMode> = Vec::new();
        display_modes.push(DisplayMode { width: 0, height: 0 });
        let mut display_options: Vec<String> = Vec::new();
        display_options.push(display_modes[0].label());
        let mut k: usize = 0;
        let len = sorted.len();
        while k < len
            invariant
                len == sorted@.len(),
                k <= len,
                display_modes@ == seq![DisplayMode { width: 0, height: 0 }] + sorted@.take(k as int),
                display_options@.len() == display_modes@.len(),
                forall|j: int|
                    0 <= j < display_modes@.len() ==> (#[trigger] display_options@[j])@
                        == spec_mode_label(display_modes@[j]),
            decreases len - k,
        {
            let m = sorted[k];
            let label = m.label();
            display_modes.push(m);
            display_options.push(label);
            proof {
                assert(sorted@.take(k + 1) =~= sorted@.take(k as int).push(m));
                assert(display_modes@ =~= seq![DisplayMode { width: 0, height: 0 }] + sorted@.take(
                    k + 1,
                ));
            }
            k = k + 1;
        }
        proof {
            assert(sorted@.take(len as int) =~= sorted@);
            assert(display_modes@.drop_first() =~= sorted@);
            assert(display_options@.map_values(|s: String| s@) =~= display_modes@.map_values(
                |m: DisplayMode| spec_mode_label(m),
            ));
        }
        ResolutionInfo { display_options, display_modes }
    }

    /// The mode of entry `i`.
    pub fn mode_at(&self, i: usize) -> (r: DisplayMode)
        requires
            i < self.modes().len(),
        ensures
            r == self.modes()[i as int],
    {
        self.display_modes[i]
    }

    /// The labels of the resolutions, in order.
    pub fn get_display_option_list(&self) -> (r: Vec<String>)
        ensures
            r@.map_values(|s: String| s@) == self.options(),
    {
        let mut r: Vec<String> = Vec::new();
        let n = self.display_options.len();
        let mut i: usize = 0;
        while i < n
            invariant
                n == self.display_options@.len(),
                i <= n,
                r@.len() == i,
                forall|j: int| 0 <= j < i ==> (#[trigger] r@[j])@ == self.display_options@[j]@,
            decreases n - i,
        {
            r.push(self.display_options[i].clone());
            i = i + 1;
        }
        proof {
            assert(r@.map_values(|s: String| s@) =~= self.options());
        }
        r
    }
}


/// The button choices of a button action's list, in order; the first is "unbound".
pub open spec fn spec_button_option(i: int) -> Option<Button> {
    if i == 0 {
        None
    } else if i == 1 {
        Some(Button::A)
    } else if i == 2 {
        Some(Button::B)
    } else if i == 3 {
        Some(Button::X)
    } else if i == 4 {
        Some(Button::Y)
    } else if i == 5 {
        Some(Button::DPadUp)
    } else if i == 6 {
        Some(Button::DPadDown)
    } else if i == 7 {
        Some(Button::DPadLeft)
    } else if i == 8 {
        Some(Button::DPadRight)
    } else if i == 9 {
        Some(Button::LeftShoulder)
    } else if i == 10 {
        Some(Button::RightShoulder)
    } else if i == 11 {
        Some(Button::LeftTrigger)
    } else if i == 12 {
        Some(Button::RightTrigger)
    } else if i == 13 {
        Some(Button::LeftStick)
    } else if i == 14 {
        Some(Button::RightStick)
    } else if i == 15 {
        Some(Button::Start)
    } else if i == 16 {
        Some(Button::Select)
    } else if i == 17 {
        Some(Button::LeftPaddle1)
    } else if i == 18 {
        Some(Button::RightPaddle1)
    } else if i == 19 {
        Some(Button::LeftPaddle2)
    } else if i == 20 {
        Some(Button::RightPaddle2)
    } else {
        Some(Button::Touchpad)
    }
}

/// The choice of a button action's list that shows button `b`; 0 where the list does not
/// offer it.
pub open spec fn spec_button_option_index(b: Button) -> u32 {
    match b {
        Button::A => 1,
        Button::B => 2,
        Button::X => 3,
        Button::Y => 4,
        Button::Select => 16,
        Button::Home => 0,
        Button::Start => 15,
        Button::LeftStick => 13,
        Button::RightStick => 14,
        Button::LeftShoulder => 9,
        Button::RightShoulder => 10,
        Button::DPadUp => 5,
        Button::DPadDown => 6,
        Button::DPadLeft => 7,
        Button::DPadRight => 8,
        Button::Misc1 => 0,
        Button::RightPaddle1 => 18,
        Button::LeftPaddle1 => 17,
        Button::RightPaddle2 => 20,
        Button::LeftPaddle2 => 19,
        Button::Touchpad => 21,
        Button::RightTrigger => 12,
        Button::LeftTrigger => 11,
        Button::Misc2 => 0,
        Button::Misc3 => 0,
        Button::Misc4 => 0,
        Button::Misc5 => 0,
    }
}

pub open spec fn spec_button_label(i: int) -> Seq<char> {
    if i == 0 {
        "Unbound"@
    } else if i == 1 {
        "A/Cross"@
    } else if i == 2 {
        "B/Circle"@
    } else if i == 3 {
        "X/Square"@
    } else if i == 4 {
        "Y/Triangle"@
    } else if i == 5 {
        "D-Pad Up"@
    } else if i == 6 {
        "D-Pad Down"@
    } else if i == 7 {
        "D-Pad Left"@
    } else if i == 8 {
        "D-Pad Right"@
    } else if i == 9 {
        "LB/L1"@
    } else if i == 10 {
        "RB/R1"@
    } else if i == 11 {
        "LR/L2"@
    } else if i == 12 {
        "RT/R2"@
    } else if i == 13 {
        "Left Stick/L3"@
    } else if i == 14 {
        "Right Stick/R3"@
    } else if i == 15 {
        "Start/Options"@
    } else if i == 16 {
        "Back/Select"@
    } else if i == 17 {
        "Left Paddle 1"@
    } else if i == 18 {
        "Right Paddle 1"@
    } else if i == 19 {
        "Left Paddle 2"@
    } else if i == 20 {
        "Right Paddle 2"@
    } else {
        "Touchpad"@
    }
}

/// The button of choice `selected` of a button action's list.
pub fn button_option(selected: u32) -> (r: Option<Button>)
    requires
        selected < 22,
    ensures
        r == spec_button_option(selected as int),
{
    match selected {
        0 => None,
        1 => Some(Button::A),
        2 => Some(Button::B),
        3 => Some(Button::X),
        4 => Some(Button::Y),
        5 => Some(Button::DPadUp),
        6 => Some(Button::DPadDown),
        7 => Some(Button::DPadLeft),
        8 => Some(Button::DPadRight),
        9 => Some(Button::LeftShoulder),
        10 => Some(Button::RightShoulder),
        11 => Some(Button::LeftTrigger),
        12 => Some(Button::RightTrigger),
        13 => Some(Button::LeftStick),
        14 => Some(Button::RightStick),
        15 => Some(Button::Start),
        16 => Some(Button::Select),
        17 => Some(Button::LeftPaddle1),
        18 => Some(Button::RightPaddle1),
        19 => Some(Button::LeftPaddle2),
        20 => Some(Button::RightPaddle2),
        _ => Some(Button::Touchpad),
    }
}

/// The choice of a button action's list that shows `value`; a button that the list does
/// not offer shows as unbound.
pub fn button_option_index(value: Option<Button>) -> (r: u32)
    ensures
        r == match value {
            None => 0,
            Some(b) => spec_button_option_index(b),
        },
{
    match value {
        None => 0,
        Some(b) => match b {
            Button::A => 1,
            Button::B => 2,
            Button::X => 3,
            Button::Y => 4,
            Button::Select => 16,
            Button::Home => 0,
            Button::Start => 15,
            Button::LeftStick => 13,
            Button::RightStick => 14,
            Button::LeftShoulder => 9,
            Button::RightShoulder => 10,
            Button::DPadUp => 5,
            Button::DPadDown => 6,
            Button::DPadLeft => 7,
            Button::DPadRight => 8,
            Button::Misc1 => 0,
            Button::RightPaddle1 => 18,
            Button::LeftPaddle1 => 17,
            Button::RightPaddle2 => 20,
            Button::LeftPaddle2 => 19,
            Button::Touchpad => 21,
            Button::RightTrigger => 12,
            Button::LeftTrigger => 11,
            Button::Misc2 => 0,
            Button::Misc3 => 0,
            Button::Misc4 => 0,
            Button::Misc5 => 0,
        },
    }
}

/// The labels of a button action's choices.
pub fn button_option_labels() -> (r: Vec<&'static str>)
    ensures
        r@.len() == 22,
        forall|i: int| 0 <= i < 22 ==> (#[trigger] r@[i])@ == spec_button_label(i),
{
    let mut r: Vec<&'static str> = Vec::new();
    r.push("Unbound");
    r.push("A/Cross");
    r.push("B/Circle");
    r.push("X/Square");
    r.push("Y/Triangle");
    r.push("D-Pad Up");
    r.push("D-Pad Down");
    r.push("D-Pad Left");
    r.push("D-Pad Right");
    r.push("LB/L1");
    r.push("RB/R1");
    r.push("LR/L2");
    r.push("RT/R2");
    r.push("Left Stick/L3");
    r.push("Right Stick/R3");
    r.push("Start/Options");
    r.push("Back/Select");
    r.push("Left Paddle 1");
    r.push("Right Paddle 1");
    r.push("Left Paddle 2");
    r.push("Right Paddle 2");
    r.push("Touchpad");
    r
}

/// The stick choices of a stick action's list, in order; the first is "unbound".
pub open spec fn spec_stick_option(i: int) -> Option<Stick> {
    if i == 0 {
        None
    } else if i == 1 {
        Some(Stick::Left)
    } else {
        Some(Stick::Right)
    }
}

/// The choice of a stick action's list that shows stick `s`.
pub open spec fn spec_stick_option_index(s: Stick) -> u32 {
    match s {
        Stick::Left => 1,
        Stick::Right => 2,
    }
}

pub open spec fn spec_stick_label(i: int) -> Seq<char> {
    if i == 0 {
        "Unbound"@
    } else if i == 1 {
        "Left Stick"@
    } else {
        "Right Stick"@
    }
}

/// The stick of choice `selected` of a stick action's list.
pub fn stick_option(selected: u32) -> (r: Option<Stick>)
    requires
        selected < 3,
    ensures
        r == spec_stick_option(selected as int),
{
    match selected {
        0 => None,
        1 => Some(Stick::Left),
        _ => Some(Stick::Right),
    }
}

/// The choice of a stick action's list that shows `value`.
pub fn stick_option_index(value: Option<Stick>) -> (r: u32)
    ensures
        r == match value {
            None => 0,
            Some(s) => spec_stick_option_index(s),
        },
{
    match value {
        None => 0,
        Some(Stick::Left) => 1,
        Some(Stick::Right) => 2,
    }
}

/// The labels of a stick action's choices.
pub fn stick_option_labels() -> (r: Vec<&'static str>)
    ensures
        r@.len() == 3,
        forall|i: int| 0 <= i < 3 ==> (#[trigger] r@[i])@ == spec_stick_label(i),
{
    let mut r: Vec<&'static str> = Vec::new();
    r.push("Unbound");
    r.push("Left Stick");
    r.push("Right Stick");
    r
}

/// Choosing an entry of a list and reading back the entry that shows the choice gives the
/// same entry; a button or stick that a list offers is shown by the entry that chooses it.
pub proof fn lemma_option_roundtrip()
    ensures
        forall|i: int|
            0 <= i < 22 ==> match #[trigger] spec_button_option(i) {
                None => i == 0,
                Some(b) => spec_button_option_index(b) == i,
            },
        forall|b: Button|
            spec_button_option_index(b) != 0 ==> #[trigger] spec_button_option(
                spec_button_option_index(b) as int,
            ) == Some(b),
        forall|i: int|
            0 <= i < 3 ==> match #[trigger] spec_stick_option(i) {
                None => i == 0,
                Some(s) => spec_stick_option_index(s) == i,
            },
        forall|s: Stick| #[trigger] spec_stick_option(spec_stick_option_index(s) as int) == Some(s),
{
    assert forall|b: Button|
        spec_button_option_index(b) != 0 implies #[trigger] spec_button_option(
        spec_button_option_index(b) as int,
    ) == Some(b) by {
        match b {
            Button::A => {},
            _ => {},
        }
    }
}

/// The number of entries in the list of the action `bind`.
pub open spec fn option_count(bind: BindType) -> nat {
    match bind {
        BindType::Button { .. } => 22,
        BindType::Stick { .. } => 3,
    }
}

/// The binding after entry `selected` of its list is chosen; the kind stays.
pub open spec fn spec_select(bind: BindType, selected: u32) -> BindType {
    match bind {
        BindType::Button { .. } => BindType::Button { value: spec_button_option(selected as int) },
        BindType::Stick { .. } => BindType::Stick { value: spec_stick_option(selected as int) },
    }
}

/// The entry of its list that shows `bind`.
pub open spec fn spec_selected(bind: BindType) -> u32 {
    match bind {
        BindType::Button { value } => match value {
            None => 0,
            Some(b) => spec_button_option_index(b),
        },
        BindType::Stick { value } => match value {
            None => 0,
            Some(s) => spec_stick_option_index(s),
        },
    }
}

/// Whether two bindings are of the same kind.
pub open spec fn same_kind(a: BindType, b: BindType) -> bool {
    (a is Button && b is Button) || (a is Stick && b is Stick)
}

/// The binding of the action `i` read from the stored number `v`: -1 or a number that
/// names nothing of the action's kind is unbound.
pub open spec fn spec_load_bind(i: int, v: i32) -> BindType {
    match spec_gamepad_bind(i).2 {
        BindType::Button { .. } => BindType::Button {
            value: if v == -1 {
                None
            } else {
                button_of_code(v)
            },
        },
        BindType::Stick { .. } => BindType::Stick {
            value: if v == -1 {
                None
            } else {
                stick_of_code(v)
            },
        },
    }
}

/// The gamepad bindings as the configuration tool edits them, one for each action of
/// `gamepad_binds`.
pub struct GamepadState {
    binds: Vec<BindType>,
}

impl GamepadState {
    pub closed spec fn binds(self) -> Seq<BindType> {
        self.binds@
    }

    /// One binding per action, each of its action's kind.
    pub open spec fn wf(self) -> bool {
        &&& self.binds().len() == 17
        &&& forall|i: int|
            0 <= i < 17 ==> same_kind(#[trigger] self.binds()[i], spec_gamepad_bind(i).2)
    }

    /// The bindings read from the stored numbers, one per action.
    pub fn new(values: &Vec<i32>) -> (r: Self)
        requires
            values@.len() == 17,
        ensures
            r.wf(),
            forall|i: int| 0 <= i < 17 ==> #[trigger] r.binds()[i] == spec_load_bind(i, values@[i]),
    {
        let defaults = gamepad_binds();
        let mut binds: Vec<BindType> = Vec::new();
        let mut i: usize = 0;
        while i < 17
            invariant
                i <= 17,
                values@.len() == 17,
                defaults@.len() == 17,
                forall|k: int| 0 <= k < 17 ==> (#[trigger] defaults@[k]).default == spec_gamepad_bind(k).2,
                binds@.len() == i,
                forall|k: int| 0 <= k < i ==> #[trigger] binds@[k] == spec_load_bind(k, values@[k]),
            decreases 17 - i,
        {
            let value = values[i];
            let bind = match defaults[i].default {
                BindType::Button { .. } => {
                    let button = if value == -1 {
                        None
                    } else {
                        Button::from_i32(value)
                    };
                    BindType::Button { value: button }
                },
                BindType::Stick { .. } => {
                    let stick = if value == -1 {
                        None
                    } else {
                        Stick::from_i32(value)
                    };
                    BindType::Stick { value: stick }
                },
            };
            binds.push(bind);
            i = i + 1;
        }
        GamepadState { binds }
    }

    /// The numbers to store, one per action.
    pub fn save(&self) -> (r: Vec<i32>)
        ensures
            r@ == self.binds().map_values(|b: BindType| bind_code(b)),
    {
        let mut r: Vec<i32> = Vec::new();
        let n = self.binds.len();
        let mut i: usize = 0;
        while i < n
            invariant
                n == self.binds@.len(),
                i <= n,
                r@ == self.binds().take(i as int).map_values(|b: BindType| bind_code(b)),
            decreases n - i,
        {
            r.push(self.binds[i].to_i32());
            proof {
                assert(self.binds().take(i + 1) =~= self.binds().take(i as int).push(self.binds@[i as int]));
                assert(r@ =~= self.binds().take(i + 1).map_values(|b: BindType| bind_code(b)));
            }
            i = i + 1;
        }
        proof {
            assert(self.binds().take(n as int) =~= self.binds());
        }
        r
    }

    /// The binding of the action `idx`.
    pub fn bind(&self, idx: usize) -> (r: BindType)
        requires
            idx < self.binds().len(),
        ensures
            r == self.binds()[idx as int],
    {
        self.binds[idx]
    }

    /// Chooses entry `selected` of the list of the action `idx`.
    pub fn select_option(&mut self, idx: usize, selected: u32)
        requires
            old(self).wf(),
            idx < 17,
            selected < option_count(old(self).binds()[idx as int]),
        ensures
            final(self).wf(),
            final(self).binds() == old(self).binds().update(
                idx as int,
                spec_select(old(self).binds()[idx as int], selected),
            ),
    {
        let value = match self.binds[idx] {
            BindType::Button { .. } => BindType::Button { value: button_option(selected) },
            BindType::Stick { .. } => BindType::Stick { value: stick_option(selected) },
        };
        self.binds.set(idx, value);
        proof {
            assert forall|i: int|
                0 <= i < 17 implies same_kind(#[trigger] self.binds()[i], spec_gamepad_bind(i).2) by {
                if i != idx {
                    assert(self.binds()[i] == old(self).binds()[i]);
                }
            }
        }
    }

    /// The entry of the list of the action `idx` that shows its binding.
    pub fn selected_option(&self, idx: usize) -> (r: u32)
        requires
            idx < self.binds().len(),
        ensures
            r == spec_selected(self.binds()[idx as int]),
    {
        match self.binds[idx] {
            BindType::Button { value } => button_option_index(value),
            BindType::Stick { value } => stick_option_index(value),
        }
    }
}

impl Default for GamepadState {
    /// Every action at its default binding.
    fn default() -> (r: Self)
        ensures
            r.wf(),
            forall|i: int| 0 <= i < 17 ==> #[trigger] r.binds()[i] == spec_gamepad_bind(i).2,
    {
        let defaults = gamepad_binds();
        let mut binds: Vec<BindType> = Vec::new();
        let mut i: usize = 0;
        while i < 17
            invariant
                i <= 17,
                defaults@.len() == 17,
                forall|k: int| 0 <= k < 17 ==> (#[trigger] defaults@[k]).default == spec_gamepad_bind(k).2,
                binds@.len() == i,
                forall|k: int| 0 <= k < i ==> #[trigger] binds@[k] == spec_gamepad_bind(k).2,
            decreases 17 - i,
        {
            binds.push(defaults[i].default);
            i = i + 1;
        }
        GamepadState { binds }
    }
}

/// Storing the bindings and reading them back gives them again.
pub proof fn lemma_save_load(s: GamepadState)
    requires
        s.wf(),
    ensures
        forall|i: int|
            0 <= i < 17 ==> #[trigger] spec_load_bind(i, bind_code(s.binds()[i])) == s.binds()[i],
{
    assert forall|i: int| 0 <= i < 17 implies #[trigger] spec_load_bind(i, bind_code(s.binds()[i]))
        == s.binds()[i] by {
        assert(same_kind(s.binds()[i], spec_gamepad_bind(i).2));
    }
}

/// Choosing an entry of an action's list and reading back the shown entry gives it again.
pub proof fn lemma_select_roundtrip(bind: BindType, selected: u32)
    requires
        selected < option_count(bind),
    ensures
        spec_selected(spec_select(bind, selected)) == selected,
        same_kind(spec_select(bind, selected), bind),
{
    lemma_option_roundtrip();
    match bind {
        BindType::Button { .. } => {
            assert(0 <= selected < 22);
            let o = spec_button_option(selected as int);
        },
        BindType::Stick { .. } => {
            let o = spec_stick_option(selected as int);
        },
    }
}

/// An event while the tool waits for the key to bind: a key press (with its scancode,
/// where SDL knows it), the quit request, or the wait window going away.
#[derive(Clone, Copy, Debug, PartialEq, Eq, Structural)]
pub enum KeyBindEvent {
    KeyDown { scancode: Option<u32> },
    Quit,
    WindowHidden,
    WindowFocusLost,
    WindowMinimized,
    Other,
}

/// The keyboard bindings as the configuration tool edits them, one scancode (or none) for
/// each action of `keybinds`, and the action waiting for its key, if any.
pub struct KeyboardState {
    is_setting_key: Option<usize>,
    key_binds: Vec<Option<u32>>,
}

impl KeyboardState {
    pub closed spec fn key_binds(self) -> Seq<Option<u32>> {
        self.key_binds@
    }

    /// The action waiting for its key, if any.
    pub closed spec fn setting_key(self) -> Option<usize> {
        self.is_setting_key
    }

    pub fn is_setting_key(&self) -> (r: Option<usize>)
        ensures
            r == self.setting_key(),
    {
        self.is_setting_key
    }

    /// The bindings read from the configuration: the stored scancode of each action where
    /// it names a key.
    pub fn new(codes: &Vec<Option<u32>>) -> (r: Self)
        requires
            codes@.len() == 19,
        ensures
            r.key_binds() == codes@,
            r.setting_key() is None,
    {
        let mut key_binds: Vec<Option<u32>> = Vec::new();
        let mut i: usize = 0;
        while i < 19
            invariant
                i <= 19,
                codes@.len() == 19,
                key_binds@ == codes@.take(i as int),
            decreases 19 - i,
        {
            key_binds.push(codes[i]);
            i = i + 1;
            proof {
                assert(key_binds@ =~= codes@.take(i as int));
            }
        }
        proof {
            assert(codes@.take(19) =~= codes@);
        }
        KeyboardState { is_setting_key: None, key_binds }
    }

    /// The numbers to store, one per action: the scancode, or -1 for none.
    pub fn save(&self) -> (r: Vec<i32>)
        ensures
            r@ == self.key_binds().map_values(|k: Option<u32>| scancode_code(k)),
    {
        let mut r: Vec<i32> = Vec::new();
        let n = self.key_binds.len();
        let mut i: usize = 0;
        while i < n
            invariant
                n == self.key_binds@.len(),
                i <= n,
                r@ == self.key_binds().take(i as int).map_values(|k: Option<u32>| scancode_code(k)),
            decreases n - i,
        {
            let v: i32 = match self.key_binds[i] {
                Some(c) => c as i32,
                None => -1,
            };
            r.push(v);
            proof {
                assert(self.key_binds().take(i + 1) =~= self.key_binds().take(i as int).push(
                    self.key_binds@[i as int],
                ));
                assert(r@ =~= self.key_binds().take(i + 1).map_values(
                    |k: Option<u32>| scancode_code(k),
                ));
            }
            i = i + 1;
        }
        proof {
            assert(self.key_binds().take(n as int) =~= self.key_binds());
        }
        r
    }

    /// The scancode bound to the action `idx`.
    pub fn key_bind(&self, idx: usize) -> (r: Option<u32>)
        requires
            idx < self.key_binds().len(),
        ensures
            r == self.key_binds()[idx as int],
    {
        self.key_binds[idx]
    }

    /// Starts waiting for the key of the action `idx`.
    pub fn start_key_bind(&mut self, idx: usize)
        ensures
            final(self).setting_key() == Some(idx),
            final(self).key_binds() == old(self).key_binds(),
    {
        self.is_setting_key = Some(idx);
    }

    /// Handles an event of the wait for a key: a key press binds its scancode (none where
    /// SDL has none) to the waiting action; a key press, the quit request or the wait
    /// window going away end the wait. Returns whether the wait ended.
    pub fn key_bind_event(&mut self, event: KeyBindEvent) -> (done: bool)
        requires
            old(self).setting_key() matches Some(i) && i < old(self).key_binds().len(),
        ensures
            done == !(event is Other),
            final(self).setting_key() == if done {
                None
            } else {
                old(self).setting_key()
            },
            final(self).key_binds() == match event {
                KeyBindEvent::KeyDown { scancode } => old(self).key_binds().update(
                    old(self).setting_key()->0 as int,
                    scancode,
                ),
                _ => old(self).key_binds(),
            },
    {
        let idx = match self.is_setting_key {
            Some(v) => v,
            None => 0,
        };
        let done = match event {
            KeyBindEvent::KeyDown { scancode } => {
                self.key_binds.set(idx, scancode);
                true
            },
            KeyBindEvent::Quit => true,
            KeyBindEvent::WindowHidden | KeyBindEvent::WindowFocusLost
            | KeyBindEvent::WindowMinimized => true,
            KeyBindEvent::Other => false,
        };
        if done {
            self.is_setting_key = None;
        }
        done
    }
}

impl Default for KeyboardState {
    /// Every action at its default key.
    fn default() -> (r: Self)
        ensures
            r.setting_key() is None,
            r.key_binds().len() == 19,
            forall|i: int| 0 <= i < 19 ==> #[trigger] r.key_binds()[i] == spec_keybind(i).2,
    {
        let defaults = keybinds();
        let mut key_binds: Vec<Option<u32>> = Vec::new();
        let mut i: usize = 0;
        while i < 19
            invariant
                i <= 19,
                defaults@.len() == 19,
                forall|k: int| 0 <= k < 19 ==> (#[trigger] defaults@[k]).default == spec_keybind(k).2,
                key_binds@.len() == i,
                forall|k: int| 0 <= k < i ==> #[trigger] key_binds@[k] == spec_keybind(k).2,
            decreases 19 - i,
        {
            key_binds.push(defaults[i].default);
            i = i + 1;
        }
        KeyboardState { is_setting_key: None, key_binds }
    }
}

/// The general settings as the configuration tool edits them: the chosen entry of the
/// resolution list, the custom resolution switch, and the window style.
#[derive(Clone, Copy, Debug, PartialEq, Eq, Structural)]
pub struct GeneralState {
    pub resolution: u32,
    pub using_custom_resolution: bool,
    pub windowed: bool,
    pub borderless: bool,
}

impl GeneralState {
    /// The desktop resolution, windowed, with borders.
    pub fn new() -> (r: Self)
        ensures
            r == (GeneralState {
                resolution: 0,
                using_custom_resolution: false,
                windowed: true,
                borderless: false,
            }),
    {
        GeneralState { resolution: 0, using_custom_resolution: false, windowed: true, borderless: false }
    }
}

/// The graphics settings to store: the window style and the resolution, 0 by 0 for the
/// desktop's own.
#[derive(Clone, Copy, Debug, PartialEq, Eq, Structural)]
pub struct GraphicsSettings {
    pub windowed: bool,
    pub borderless: bool,
    pub resolution_x: u32,
    pub resolution_y: u32,
}

/// The state of the configuration tool.
pub struct AppState {
    pub resolution_info: ResolutionInfo,
    pub general_state: GeneralState,
    pub gamepad_state: GamepadState,
    pub keyboard_state: KeyboardState,
    pub should_quit: bool,
}

impl AppState {
    /// The tool's state for the monitor's `modes`, the stored gamepad numbers and the
    /// stored keys.
    pub fn new(modes: &Vec<DisplayMode>, pad_values: &Vec<i32>, key_codes: &Vec<Option<u32>>) -> (r: Self)
        requires
            pad_values@.len() == 17,
            key_codes@.len() == 19,
        ensures
            r.resolution_info.modes()[0] == (DisplayMode { width: 0, height: 0 }),
            modes_sorted(r.resolution_info.modes().drop_first()),
            forall|m: DisplayMode| #[trigger]
                r.resolution_info.modes().drop_first().contains(m) <==> modes@.contains(m),
            r.resolution_info.options() == r.resolution_info.modes().map_values(
                |m: DisplayMode| spec_mode_label(m),
            ),
            r.general_state == GeneralState::new_spec(),
            r.gamepad_state.wf(),
            forall|i: int|
                0 <= i < 17 ==> #[trigger] r.gamepad_state.binds()[i] == spec_load_bind(
                    i,
                    pad_values@[i],
                ),
            r.keyboard_state.key_binds() == key_codes@,
            r.keyboard_state.setting_key() is None,
            !r.should_quit,
    {
        let resolution_info = ResolutionInfo::from_modes(modes);
        let general_state = GeneralState::new();
        let gamepad_state = GamepadState::new(pad_values);
        let keyboard_state = KeyboardState::new(key_codes);
        AppState { resolution_info, general_state, gamepad_state, keyboard_state, should_quit: false }
    }

    /// The graphics settings to store: the window style, and the resolution of the chosen
    /// entry of the list.
    pub fn save_settings(&self) -> (r: GraphicsSettings)
        requires
            self.general_state.resolution < self.resolution_info.modes().len(),
        ensures
            r == (GraphicsSettings {
                windowed: self.general_state.windowed,
                borderless: self.general_state.borderless,
                resolution_x: self.resolution_info.modes()[self.general_state.resolution as int].width,
                resolution_y: self.resolution_info.modes()[self.general_state.resolution as int].height,
            }),
    {
        let mode = self.resolution_info.mode_at(self.general_state.resolution as usize);
        GraphicsSettings {
            windowed: self.general_state.windowed,
            borderless: self.general_state.borderless,
            resolution_x: mode.width,
            resolution_y: mode.height,
        }
    }

    pub fn quit(&mut self)
        ensures
            final(self).should_quit,
            final(self).resolution_info == old(self).resolution_info,
            final(self).general_state == old(self).general_state,
            final(self).gamepad_state == old(self).gamepad_state,
            final(self).keyboard_state == old(self).keyboard_state,
    {
        self.should_quit = true;
    }
}

impl GeneralState {
    pub open spec fn new_spec() -> GeneralState {
        GeneralState { resolution: 0, using_custom_resolution: false, windowed: true, borderless: false }
    }
}

} // verus!
