use vstd::prelude::*;

use crate::scancode::{SCANCODE_A,SCANCODE_D,SCANCODE_GRAVE,SCANCODE_I,SCANCODE_J,SCANCODE_K,SCANCODE_KP_1,SCANCODE_KP_2,SCANCODE_KP_3,SCANCODE_KP_4,SCANCODE_KP_6,SCANCODE_KP_7,SCANCODE_KP_8,SCANCODE_KP_9,SCANCODE_L,SCANCODE_S,SCANCODE_W};

verus! {

/// A gamepad button of the game's own numbering, as the configuration file stores it.
#[derive(Clone, Copy, Debug, PartialEq, Eq, Structural)]
pub enum Button {
    A,
    B,
    X,
    Y,
    Select,
    Home,
    Start,
    LeftStick,
    RightStick,
    LeftShoulder,
    RightShoulder,
    DPadUp,
    DPadDown,
    DPadLeft,
    DPadRight,
    Misc1,
    RightPaddle1,
    LeftPaddle1,
    RightPaddle2,
    LeftPaddle2,
    Touchpad,
    RightTrigger,
    LeftTrigger,
    Misc2,
    Misc3,
    Misc4,
    Misc5,
}

/// The number under which a button is stored.
pub open spec fn button_code(b: Button) -> i32 {
    match b {
        Button::A => 0,
        Button::B => 1,
        Button::X => 2,
        Button::Y => 3,
        Button::Select => 4,
        Button::Home => 5,
        Button::Start => 6,
        Button::LeftStick => 7,
        Button::RightStick => 8,
        Button::LeftShoulder => 9,
        Button::RightShoulder => 10,
        Button::DPadUp => 11,
        Button::DPadDown => 12,
        Button::DPadLeft => 13,
        Button::DPadRight => 14,
        Button::Misc1 => 15,
        Button::RightPaddle1 => 16,
        Button::LeftPaddle1 => 17,
        Button::RightPaddle2 => 18,
        Button::LeftPaddle2 => 19,
        Button::Touchpad => 20,
        Button::RightTrigger => 21,
        Button::LeftTrigger => 22,
        Button::Misc2 => 23,
        Button::Misc3 => 24,
        Button::Misc4 => 25,
        Button::Misc5 => 26,
    }
}

/// The button stored under `v`, if any.
pub open spec fn button_of_code(v: i32) -> Option<Button> {
    if v == 0 {
        Some(Button::A)
    } else if v == 1 {
        Some(Button::B)
    } else if v == 2 {
        Some(Button::X)
    } else if v == 3 {
        Some(Button::Y)
    } else if v == 4 {
        Some(Button::Select)
    } else if v == 5 {
        Some(Button::Home)
    } else if v == 6 {
        Some(Button::Start)
    } else if v == 7 {
        Some(Button::LeftStick)
    } else if v == 8 {
        Some(Button::RightStick)
    } else if v == 9 {
        Some(Button::LeftShoulder)
    } else if v == 10 {
        Some(Button::RightShoulder)
    } else if v == 11 {
        Some(Button::DPadUp)
    } else if v == 12 {
        Some(Button::DPadDown)
    } else if v == 13 {
        Some(Button::DPadLeft)
    } else if v == 14 {
        Some(Button::DPadRight)
    } else if v == 15 {
        Some(Button::Misc1)
    } else if v == 16 {
        Some(Button::RightPaddle1)
    } else if v == 17 {
        Some(Button::LeftPaddle1)
    } else if v == 18 {
        Some(Button::RightPaddle2)
    } else if v == 19 {
        Some(Button::LeftPaddle2)
    } else if v == 20 {
        Some(Button::Touchpad)
    } else if v == 21 {
        Some(Button::RightTrigger)
    } else if v == 22 {
        Some(Button::LeftTrigger)
    } else if v == 23 {
        Some(Button::Misc2)
    } else if v == 24 {
        Some(Button::Misc3)
    } else if v == 25 {
        Some(Button::Misc4)
    } else if v == 26 {
        Some(Button::Misc5)
    } else {
        None
    }
}

impl Button {
    /// The button stored under `v`, if any.
    pub fn from_i32(v: i32) -> (r: Option<Self>)
        ensures
            r is None <==> !(0 <= v <= 26),
            r matches Some(b) ==> button_code(b) == v,
            r == button_of_code(v),
    {
        match v {
            0 => Some(Self::A),
            1 => Some(Self::B),
            2 => Some(Self::X),
            3 => Some(Self::Y),
            4 => Some(Self::Select),
            5 => Some(Self::Home),
            6 => Some(Self::Start),
            7 => Some(Self::LeftStick),
            8 => Some(Self::RightStick),
            9 => Some(Self::LeftShoulder),
            10 => Some(Self::RightShoulder),
            11 => Some(Self::DPadUp),
            12 => Some(Self::DPadDown),
            13 => Some(Self::DPadLeft),
            14 => Some(Self::DPadRight),
            15 => Some(Self::Misc1),
            16 => Some(Self::RightPaddle1),
            17 => Some(Self::LeftPaddle1),
            18 => Some(Self::RightPaddle2),
            19 => Some(Self::LeftPaddle2),
            20 => Some(Self::Touchpad),
            21 => Some(Self::RightTrigger),
            22 => Some(Self::LeftTrigger),
            23 => Some(Self::Misc2),
            24 => Some(Self::Misc3),
            25 => Some(Self::Misc4),
            26 => Some(Self::Misc5),
            _ => None,
        }
    }

    /// The number under which this button is stored.
    pub fn to_i32(&self) -> (r: i32)
        ensures
            r == button_code(*self),
    {
        match self {
            Button::A => 0,
            Button::B => 1,
            Button::X => 2,
            Button::Y => 3,
            Button::Select => 4,
            Button::Home => 5,
            Button::Start => 6,
            Button::LeftStick => 7,
            Button::RightStick => 8,
            Button::LeftShoulder => 9,
            Button::RightShoulder => 10,
            Button::DPadUp => 11,
            Button::DPadDown => 12,
            Button::DPadLeft => 13,
            Button::DPadRight => 14,
            Button::Misc1 => 15,
            Button::RightPaddle1 => 16,
            Button::LeftPaddle1 => 17,
            Button::RightPaddle2 => 18,
            Button::LeftPaddle2 => 19,
            Button::Touchpad => 20,
            Button::RightTrigger => 21,
            Button::LeftTrigger => 22,
            Button::Misc2 => 23,
            Button::Misc3 => 24,
            Button::Misc4 => 25,
            Button::Misc5 => 26,
        }
    }
}

/// An analog stick of the game's own numbering.
#[derive(Clone, Copy, Debug, PartialEq, Eq, Structural)]
pub enum Stick {
    Left,
    Right,
}

/// The number under which a stick is stored.
pub open spec fn stick_code(s: Stick) -> i32 {
    match s {
        Stick::Left => 0,
        Stick::Right => 1,
    }
}

/// The stick stored under `v`, if any.
pub open spec fn stick_of_code(v: i32) -> Option<Stick> {
    if v == 0 {
        Some(Stick::Left)
    } else if v == 1 {
        Some(Stick::Right)
    } else {
        None
    }
}

impl Stick {
    /// The stick stored under `v`, if any.
    pub fn from_i32(v: i32) -> (r: Option<Self>)
        ensures
            r is None <==> !(0 <= v <= 1),
            r matches Some(s) ==> stick_code(s) == v,
            r == stick_of_code(v),
    {
        match v {
            0 => Some(Self::Left),
            1 => Some(Self::Right),
            _ => None,
        }
    }

    /// The number under which this stick is stored.
    pub fn to_i32(&self) -> (r: i32)
        ensures
            r == stick_code(*self),
    {
        match self {
            Stick::Left => 0,
            Stick::Right => 1,
        }
    }
}

/// Storing a button or stick and reading it back gives it again; the numbers outside
/// the stored ranges stand for nothing.
pub proof fn lemma_codes_roundtrip(b: Button, s: Stick)
    ensures
        0 <= button_code(b) <= 26,
        0 <= stick_code(s) <= 1,
        forall|c: Button| button_code(c) == button_code(b) ==> c == b,
        forall|t: Stick| stick_code(t) == stick_code(s) ==> t == s,
{
}

/// What a gamepad action is bound to: a button or a stick, or nothing of that kind.
#[derive(Clone, Copy, Debug, PartialEq, Eq, Structural)]
pub enum BindType {
    Button { value: Option<Button> },
    Stick { value: Option<Stick> },
}

/// A configurable gamepad action: its label, its configuration key and its default.
#[derive(Clone, Copy, Debug)]
pub struct GamepadBind {
    pub display_name: &'static str,
    pub key: &'static str,
    pub default: BindType,
}

/// A configurable keyboard action: its label, its configuration key and its default
/// scancode.
#[derive(Clone, Copy, Debug)]
pub struct Keybind {
    pub display_name: &'static str,
    pub key: &'static str,
    pub default: Option<u32>,
}

/// The number stored for a binding: its button's or stick's code, or -1 for none.
pub open spec fn bind_code(b: BindType) -> i32 {
    match b {
        BindType::Button { value } => match value {
            Some(v) => button_code(v),
            None => -1i32,
        },
        BindType::Stick { value } => match value {
            Some(v) => stick_code(v),
            None => -1i32,
        },
    }
}

/// The number stored for a default scancode, or -1 for none.
pub open spec fn scancode_code(s: Option<u32>) -> i32 {
    match s {
        Some(v) => v as i32,
        None => -1i32,
    }
}

impl BindType {
    /// The number under which this binding is stored.
    pub fn to_i32(&self) -> (r: i32)
        ensures
            r == bind_code(*self),
    {
        match self {
            BindType::Button { value } => match value {
                Some(v) => v.to_i32(),
                None => -1,
            },
            BindType::Stick { value } => match value {
                Some(v) => v.to_i32(),
                None => -1,
            },
        }
    }
}

impl Keybind {
    /// The number stored for this action when the configuration has none.
    pub fn default_code(&self) -> (r: i32)
        ensures
            r == scancode_code(self.default),
    {
        match self.default {
            Some(v) => v as i32,
            None => -1,
        }
    }
}

/// The gamepad actions in order: label, key and default binding.
pub open spec fn spec_gamepad_bind(i: int) -> (Seq<char>, Seq<char>, BindType) {
    if i == 0 {
        ("Ollie"@, "Ollie"@, BindType::Button { value: Some(Button::A) })
    } else if i == 1 {
        ("Grab"@, "Grab"@, BindType::Button { value: Some(Button::B) })
    } else if i == 2 {
        ("Flip"@, "Flip"@, BindType::Button { value: Some(Button::X) })
    } else if i == 3 {
        ("Grind"@, "Grind"@, BindType::Button { value: Some(Button::Y) })
    } else if i == 4 {
        ("Spin Left"@, "SpinLeft"@, BindType::Button { value: Some(Button::LeftShoulder) })
    } else if i == 5 {
        ("Spin Right"@, "SpinRight"@, BindType::Button { value: Some(Button::RightShoulder) })
    } else if i == 6 {
        ("Nollie"@, "Nollie"@, BindType::Button { value: Some(Button::LeftTrigger) })
    } else if i == 7 {
        ("Switch"@, "Switch"@, BindType::Button { value: Some(Button::RightTrigger) })
    } else if i == 8 {
        ("Pause"@, "Pause"@, BindType::Button { value: Some(Button::Start) })
    } else if i == 9 {
        ("Forward"@, "Forward"@, BindType::Button { value: Some(Button::DPadUp) })
    } else if i == 10 {
        ("Backward"@, "Backward"@, BindType::Button { value: Some(Button::DPadDown) })
    } else if i == 11 {
        ("Left"@, "Left"@, BindType::Button { value: Some(Button::DPadLeft) })
    } else if i == 12 {
        ("Right"@, "Right"@, BindType::Button { value: Some(Button::DPadRight) })
    } else if i == 13 {
        ("Move Stick"@, "MovementStick"@, BindType::Stick { value: Some(Stick::Left) })
    } else if i == 14 {
        ("Camera Stick"@, "CameraStick"@, BindType::Stick { value: Some(Stick::Right) })
    } else if i == 15 {
        ("View Toggle"@, "ViewToggle"@, BindType::Button { value: Some(Button::Select) })
    } else {
        ("Swivel Lock"@, "SwivelLock"@, BindType::Button { value: Some(Button::RightStick) })
    }
}

/// The gamepad actions that the game and its configuration tool know.
pub fn gamepad_binds() -> (r: Vec<GamepadBind>)
    ensures
        r.len() == 17,
        forall|i: int|
            0 <= i < 17 ==> (#[trigger] r@[i]).display_name@ == spec_gamepad_bind(i).0
                && r@[i].key@ == spec_gamepad_bind(i).1 && r@[i].default == spec_gamepad_bind(i).2,
{
    let mut r: Vec<GamepadBind> = Vec::new();
    r.push(GamepadBind { display_name: "Ollie", key: "Ollie", default: BindType::Button { value: Some(Button::A) } });
    r.push(GamepadBind { display_name: "Grab", key: "Grab", default: BindType::Button { value: Some(Button::B) } });
    r.push(GamepadBind { display_name: "Flip", key: "Flip", default: BindType::Button { value: Some(Button::X) } });
    r.push(GamepadBind { display_name: "Grind", key: "Grind", default: BindType::Button { value: Some(Button::Y) } });
    r.push(GamepadBind { display_name: "Spin Left", key: "SpinLeft", default: BindType::Button { value: Some(Button::LeftShoulder) } });
    r.push(GamepadBind { display_name: "Spin Right", key: "SpinRight", default: BindType::Button { value: Some(Button::RightShoulder) } });
    r.push(GamepadBind { display_name: "Nollie", key: "Nollie", default: BindType::Button { value: Some(Button::LeftTrigger) } });
    r.push(GamepadBind { display_name: "Switch", key: "Switch", default: BindType::Button { value: Some(Button::RightTrigger) } });
    r.push(GamepadBind { display_name: "Pause", key: "Pause", default: BindType::Button { value: Some(Button::Start) } });
    r.push(GamepadBind { display_name: "Forward", key: "Forward", default: BindType::Button { value: Some(Button::DPadUp) } });
    r.push(GamepadBind { display_name: "Backward", key: "Backward", default: BindType::Button { value: Some(Button::DPadDown) } });
    r.push(GamepadBind { display_name: "Left", key: "Left", default: BindType::Button { value: Some(Button::DPadLeft) } });
    r.push(GamepadBind { display_name: "Right", key: "Right", default: BindType::Button { value: Some(Button::DPadRight) } });
    r.push(GamepadBind { display_name: "Move Stick", key: "MovementStick", default: BindType::Stick { value: Some(Stick::Left) } });
    r.push(GamepadBind { display_name: "Camera Stick", key: "CameraStick", default: BindType::Stick { value: Some(Stick::Right) } });
    r.push(GamepadBind { display_name: "View Toggle", key: "ViewToggle", default: BindType::Button { value: Some(Button::Select) } });
    r.push(GamepadBind { display_name: "Swivel Lock", key: "SwivelLock", default: BindType::Button { value: Some(Button::RightStick) } });
    r
}

/// The keyboard actions in order: label, key and default scancode.
pub open spec fn spec_keybind(i: int) -> (Seq<char>, Seq<char>, Option<u32>) {
    if i == 0 {
        ("Ollie"@, "Ollie"@, Some(SCANCODE_KP_2))
    } else if i == 1 {
        ("Grab"@, "Grab"@, Some(SCANCODE_KP_6))
    } else if i == 2 {
        ("Flip"@, "Flip"@, Some(SCANCODE_KP_4))
    } else if i == 3 {
        ("Grind"@, "Grind"@, Some(SCANCODE_KP_8))
    } else if i == 4 {
        ("Spin Left"@, "SpinLeft"@, Some(SCANCODE_KP_1))
    } else if i == 5 {
        ("Spin Right"@, "SpinRight"@, Some(SCANCODE_KP_3))
    } else if i == 6 {
        ("Nollie"@, "Nollie"@, Some(SCANCODE_KP_7))
    } else if i == 7 {
        ("Switch"@, "Switch"@, Some(SCANCODE_KP_9))
    } else if i == 8 {
        ("Pause"@, "Pause"@, None)
    } else if i == 9 {
        ("Forward"@, "Forward"@, Some(SCANCODE_W))
    } else if i == 10 {
        ("Backward"@, "Backward"@, Some(SCANCODE_S))
    } else if i == 11 {
        ("Left"@, "Left"@, Some(SCANCODE_A))
    } else if i == 12 {
        ("Right"@, "Right"@, Some(SCANCODE_D))
    } else if i == 13 {
        ("Camera Up"@, "CameraUp"@, Some(SCANCODE_I))
    } else if i == 14 {
        ("Camera Down"@, "CameraDown"@, Some(SCANCODE_K))
    } else if i == 15 {
        ("Camera Left"@, "CameraLeft"@, Some(SCANCODE_J))
    } else if i == 16 {
        ("Camera Right"@, "CameraRight"@, Some(SCANCODE_L))
    } else if i == 17 {
        ("View Toggle"@, "ViewToggle"@, Some(SCANCODE_GRAVE))
    } else {
        ("Swivel Lock"@, "SwivelLock"@, None)
    }
}

/// The keyboard actions that the game and its configuration tool know.
pub fn keybinds() -> (r: Vec<Keybind>)
    ensures
        r.len() == 19,
        forall|i: int|
            0 <= i < 19 ==> (#[trigger] r@[i]).display_name@ == spec_keybind(i).0 && r@[i].key@
                == spec_keybind(i).1 && r@[i].default == spec_keybind(i).2,
{
    let mut r: Vec<Keybind> = Vec::new();
    r.push(Keybind { display_name: "Ollie", key: "Ollie", default: Some(SCANCODE_KP_2) });
    r.push(Keybind { display_name: "Grab", key: "Grab", default: Some(SCANCODE_KP_6) });
    r.push(Keybind { display_name: "Flip", key: "Flip", default: Some(SCANCODE_KP_4) });
    r.push(Keybind { display_name: "Grind", key: "Grind", default: Some(SCANCODE_KP_8) });
    r.push(Keybind { display_name: "Spin Left", key: "SpinLeft", default: Some(SCANCODE_KP_1) });
    r.push(Keybind { display_name: "Spin Right", key: "SpinRight", default: Some(SCANCODE_KP_3) });
    r.push(Keybind { display_name: "Nollie", key: "Nollie", default: Some(SCANCODE_KP_7) });
    r.push(Keybind { display_name: "Switch", key: "Switch", default: Some(SCANCODE_KP_9) });
    r.push(Keybind { display_name: "Pause", key: "Pause", default: None });
    r.push(Keybind { display_name: "Forward", key: "Forward", default: Some(SCANCODE_W) });
    r.push(Keybind { display_name: "Backward", key: "Backward", default: Some(SCANCODE_S) });
    r.push(Keybind { display_name: "Left", key: "Left", default: Some(SCANCODE_A) });
    r.push(Keybind { display_name: "Right", key: "Right", default: Some(SCANCODE_D) });
    r.push(Keybind { display_name: "Camera Up", key: "CameraUp", default: Some(SCANCODE_I) });
    r.push(Keybind { display_name: "Camera Down", key: "CameraDown", default: Some(SCANCODE_K) });
    r.push(Keybind { display_name: "Camera Left", key: "CameraLeft", default: Some(SCANCODE_J) });
    r.push(Keybind { display_name: "Camera Right", key: "CameraRight", default: Some(SCANCODE_L) });
    r.push(Keybind { display_name: "View Toggle", key: "ViewToggle", default: Some(SCANCODE_GRAVE) });
    r.push(Keybind { display_name: "Swivel Lock", key: "SwivelLock", default: None });
    r
}

} // verus!
