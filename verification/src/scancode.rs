use vstd::prelude::*;

verus! {

// Keyboard scancodes in SDL's numbering (the USB HID usage ids) that the bindings and
// the hard-wired menu and editor keys name.
pub const SCANCODE_A: u32 = 4;
pub const SCANCODE_D: u32 = 7;
pub const SCANCODE_I: u32 = 12;
pub const SCANCODE_J: u32 = 13;
pub const SCANCODE_K: u32 = 14;
pub const SCANCODE_L: u32 = 15;
pub const SCANCODE_S: u32 = 22;
pub const SCANCODE_W: u32 = 26;
pub const SCANCODE_RETURN: u32 = 40;
pub const SCANCODE_ESCAPE: u32 = 41;
pub const SCANCODE_BACKSPACE: u32 = 42;
pub const SCANCODE_TAB: u32 = 43;
pub const SCANCODE_SPACE: u32 = 44;
pub const SCANCODE_MINUS: u32 = 45;
pub const SCANCODE_EQUALS: u32 = 46;
pub const SCANCODE_GRAVE: u32 = 53;
pub const SCANCODE_F1: u32 = 58;
pub const SCANCODE_F2: u32 = 59;
pub const SCANCODE_F3: u32 = 60;
pub const SCANCODE_F4: u32 = 61;
pub const SCANCODE_PAGE_UP: u32 = 75;
pub const SCANCODE_DELETE: u32 = 76;
pub const SCANCODE_PAGE_DOWN: u32 = 78;
pub const SCANCODE_RIGHT: u32 = 79;
pub const SCANCODE_LEFT: u32 = 80;
pub const SCANCODE_DOWN: u32 = 81;
pub const SCANCODE_UP: u32 = 82;
pub const SCANCODE_KP_ENTER: u32 = 88;
pub const SCANCODE_KP_1: u32 = 89;
pub const SCANCODE_KP_2: u32 = 90;
pub const SCANCODE_KP_3: u32 = 91;
pub const SCANCODE_KP_4: u32 = 92;
pub const SCANCODE_KP_5: u32 = 93;
pub const SCANCODE_KP_6: u32 = 94;
pub const SCANCODE_KP_7: u32 = 95;
pub const SCANCODE_KP_8: u32 = 96;
pub const SCANCODE_KP_9: u32 = 97;
pub const SCANCODE_LSHIFT: u32 = 225;
pub const SCANCODE_RSHIFT: u32 = 229;

} // verus!
