use vstd::prelude::*;

pub mod args;
pub mod bindings;
pub mod bps;
pub mod crc;
pub mod device;
pub mod file;
pub mod gamepad;
pub mod gameplay;
pub mod gfx;
pub mod glyph;
pub mod ilmode;
pub mod input;
pub mod keybinds;
pub mod keyboard;
pub mod logger;
pub mod misc;
pub mod net;
pub mod parkeditor;
pub mod partyconfig;
pub mod patch;
pub mod patcher;
pub mod prng;
pub mod profile;
pub mod scancode;
pub mod sfx;
pub mod table;
pub mod text;
pub mod throttle;
pub mod version;
pub mod window;

verus! {
}
