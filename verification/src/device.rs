use vstd::prelude::*;

use crate::gamepad::{GamepadManager, PadInput};
use crate::input::InputContext;
use crate::keybinds::{KeyState, KeybindManager, spec_poll_key, spec_poll_menu, spec_switch_menu};
use crate::keyboard::{KEY_BACK, Keyboard};

verus! {

/// The game's controller record. `control_data` holds, from byte 2 on, the two button
/// bitmaps (a cleared bit means pressed once the frame is finished), the four stick axes
/// (127 is centred) and the pressure of each analog button.
pub struct Device {
    pub vtable: u32,
    pub node: u32,
    pub ty: u32,
    pub port: u32,
    pub slot: u32,
    pub is_valid: u32,
    pub unk1: u32,
    pub control_data: [u8; 32],
    pub vibration_data_align: [u8; 32],
    pub vibration_data_direct: [u8; 32],
    pub vibration_data_max: [u8; 32],
    pub vibration_data_old_direct: [u8; 32],
    pub paused: u32,
    pub actuators_disabled: u32,
    pub capabilities: u32,
    pub unk2: u32,
    pub num_actuators: u32,
    pub unk3: u32,
    pub state: u32,
    pub next_state: u32,
    pub index: u32,
    pub is_plugged_in: u32,
    pub device_interface: u32,
    pub unk4: u32,
    pub unk5: u32,
}

/// A button of the game's controller layout.
#[derive(Clone, Copy, Debug, PartialEq, Eq, Structural)]
pub enum InternalButton {
    Cross,
    Circle,
    Square,
    Triangle,
    Start,
    Select,
    DPadUp,
    DPadDown,
    DPadLeft,
    DPadRight,
    L1,
    R1,
    L2,
    R2,
    L3,
    R3,
}

/// Where a button lives in the control data: the bitmap byte, the bit, and the byte of
/// its pressure where it has one.
pub open spec fn button_layout(b: InternalButton) -> (int, u8, Option<int>) {
    match b {
        InternalButton::Cross => (3, 6, Some(14)),
        InternalButton::Circle => (3, 5, Some(13)),
        InternalButton::Square => (3, 7, Some(15)),
        InternalButton::Triangle => (3, 4, Some(12)),
        InternalButton::Start => (2, 3, None),
        InternalButton::Select => (2, 0, None),
        InternalButton::DPadUp => (2, 4, Some(10)),
        InternalButton::DPadDown => (2, 6, Some(11)),
        InternalButton::DPadLeft => (2, 7, Some(9)),
        InternalButton::DPadRight => (2, 5, Some(8)),
        InternalButton::L1 => (3, 2, Some(16)),
        InternalButton::R1 => (3, 3, Some(17)),
        InternalButton::L2 => (3, 0, Some(18)),
        InternalButton::R2 => (3, 1, Some(19)),
        InternalButton::L3 => (2, 1, None),
        InternalButton::R3 => (2, 2, None),
    }
}

pub open spec fn max_u8(a: u8, b: u8) -> u8 {
    if a >= b {
        a
    } else {
        b
    }
}

/// The control data after recording `button`: its bit is set where it is pressed, and its
/// pressure becomes the greater of the old one and `pressure`.
pub open spec fn spec_update_button(cd: Seq<u8>, button: InternalButton, pressed: bool, pressure: u8) -> Seq<u8> {
    let (byte, bit, p) = button_layout(button);
    let cd1 = cd.update(byte, cd[byte] | (((if pressed { 1u8 } else { 0u8 }) << bit) as u8));
    match p {
        Some(pi) => cd1.update(pi, max_u8(cd1[pi], pressure)),
        None => cd1,
    }
}

/// How far an axis byte is from the centre: 0 to 127 on either side.
pub open spec fn spec_axis_abs(v: u8) -> u8 {
    if v > 127 {
        (v - 128) as u8
    } else {
        (127 - v) as u8
    }
}

/// Of two stick positions the one pushed further; the first on a tie.
pub open spec fn spec_stick_max(a_x: u8, a_y: u8, b_x: u8, b_y: u8) -> (u8, u8) {
    let ax = spec_axis_abs(a_x) as int;
    let ay = spec_axis_abs(a_y) as int;
    let bx = spec_axis_abs(b_x) as int;
    let by = spec_axis_abs(b_y) as int;
    if ax * ax + ay * ay >= bx * bx + by * by {
        (a_x, a_y)
    } else {
        (b_x, b_y)
    }
}

/// The axis byte of two opposite keys: full one way, full the other, or centred when both
/// or neither are held.
pub open spec fn spec_keys_to_axis(pos: bool, neg: bool) -> u8 {
    if pos && neg {
        127
    } else if pos {
        255
    } else if neg {
        0
    } else {
        127
    }
}

/// A rumble that the game asks for: the player and the two strengths.
#[derive(Clone, Copy, Debug, PartialEq, Eq, Structural)]
pub struct RumbleRequest {
    pub player: usize,
    pub high: u16,
    pub low: u16,
}

impl Device {
    pub open spec fn can_rumble(self) -> bool {
        self.state == 2 && self.capabilities & 2 != 0
    }

    /// The rumble that the current direct vibration values ask for.
    pub open spec fn spec_rumble(self) -> RumbleRequest {
        RumbleRequest {
            player: self.slot as usize,
            high: ((self.vibration_data_direct@[0] as u16) << 8u16) as u16,
            low: ((self.vibration_data_direct@[1] as u16) << 8u16) as u16,
        }
    }

    fn rumble_request(&self) -> (r: RumbleRequest)
        ensures
            r == self.spec_rumble(),
    {
        RumbleRequest {
            player: self.slot as usize,
            high: (self.vibration_data_direct[0] as u16) << 8u16,
            low: (self.vibration_data_direct[1] as u16) << 8u16,
        }
    }

    /// Records a press of `button` with `pressure` in the control data.
    pub fn update_internal_button(&mut self, button: InternalButton, pressed: bool, pressure: u8)
        ensures
            final(self).control_data@ == spec_update_button(
                old(self).control_data@,
                button,
                pressed,
                pressure,
            ),
            final(self).control_data@.len() == 32,
            *final(self) == (Device { control_data: final(self).control_data, ..*old(self) }),
    {
        let bit: u8 = if pressed {
            1
        } else {
            0
        };
        let (byte, shift, pi): (usize, u8, Option<usize>) = match button {
            InternalButton::Cross => (3, 6, Some(14)),
            InternalButton::Circle => (3, 5, Some(13)),
            InternalButton::Square => (3, 7, Some(15)),
            InternalButton::Triangle => (3, 4, Some(12)),
            InternalButton::Start => (2, 3, None),
            InternalButton::Select => (2, 0, None),
            InternalButton::DPadUp => (2, 4, Some(10)),
            InternalButton::DPadDown => (2, 6, Some(11)),
            InternalButton::DPadLeft => (2, 7, Some(9)),
            InternalButton::DPadRight => (2, 5, Some(8)),
            InternalButton::L1 => (3, 2, Some(16)),
            InternalButton::R1 => (3, 3, Some(17)),
            InternalButton::L2 => (3, 0, Some(18)),
            InternalButton::R2 => (3, 1, Some(19)),
            InternalButton::L3 => (2, 1, None),
            InternalButton::R3 => (2, 2, None),
        };
        let v = self.control_data[byte] | (bit << shift);
        self.control_data[byte] = v;
        match pi {
            Some(p) => {
                let old_p = self.control_data[p];
                self.control_data[p] = if old_p >= pressure {
                    old_p
                } else {
                    pressure
                };
            },
            None => {},
        }
    }

    pub fn axis_abs(v: u8) -> (r: u8)
        ensures
            r == spec_axis_abs(v),
    {
        if v > 0x7F {
            assert(v > 0x7F ==> v & 0x7F == v - 128) by (bit_vector);
            v & 0x7F
        } else {
            assert(v <= 0x7F ==> !v & 0x7F == 127 - v) by (bit_vector);
            !v & 0x7F
        }
    }

    pub fn stick_max(a_x: u8, a_y: u8, b_x: u8, b_y: u8) -> (r: (u8, u8))
        ensures
            r == spec_stick_max(a_x, a_y, b_x, b_y),
    {
        let abs_a_x = Self::axis_abs(a_x);
        let abs_a_y = Self::axis_abs(a_y);
        let abs_b_x = Self::axis_abs(b_x);
        let abs_b_y = Self::axis_abs(b_y);
        proof {
            assert(abs_a_x * abs_a_x <= 127 * 127) by (nonlinear_arith)
                requires
                    abs_a_x <= 127,
            ;
            assert(abs_a_y * abs_a_y <= 127 * 127) by (nonlinear_arith)
                requires
                    abs_a_y <= 127,
            ;
            assert(abs_b_x * abs_b_x <= 127 * 127) by (nonlinear_arith)
                requires
                    abs_b_x <= 127,
            ;
            assert(abs_b_y * abs_b_y <= 127 * 127) by (nonlinear_arith)
                requires
                    abs_b_y <= 127,
            ;
        }
        let a_sq = (abs_a_x as i32 * abs_a_x as i32) + (abs_a_y as i32 * abs_a_y as i32);
        let b_sq = (abs_b_x as i32 * abs_b_x as i32) + (abs_b_y as i32 * abs_b_y as i32);
        if a_sq >= b_sq {
            (a_x, a_y)
        } else {
            (b_x, b_y)
        }
    }

    pub fn keys_to_axis(pos: bool, neg: bool) -> (r: u8)
        ensures
            r == spec_keys_to_axis(pos, neg),
    {
        if pos && neg {
            127
        } else if pos {
            255
        } else if neg {
            0
        } else {
            127
        }
    }

    /// A gamepad axis value reduced to an axis byte: its top byte shifted up by 128.
    pub fn stick_axis_byte(v: i16) -> (r: u8)
        ensures
            r == (((v >> 8u16) + 128) as u8),
            r as int == (v as int + 32768) / 256,
    {
        assert(-128 <= (v >> 8u16) <= 127) by (bit_vector);
        assert((v >> 8u16) + 128 == (v as int + 32768) / 256) by (bit_vector);
        ((v >> 8u16) + 128) as u8
    }

    /// Starts a frame: marks the controller present and rumble-capable, clears the buttons
    /// and pressures and centres the sticks.
    pub fn begin_frame(&mut self)
        ensures
            final(self).capabilities == 3,
            final(self).num_actuators == 2,
            final(self).state == 2,
            final(self).is_valid == 1,
            final(self).is_plugged_in == 1,
            final(self).vibration_data_max@ == old(self).vibration_data_max@.update(0, 255).update(1, 255),
            final(self).control_data@ == spec_begin_frame(old(self).control_data@),
            *final(self) == (Device {
                control_data: final(self).control_data,
                vibration_data_max: final(self).vibration_data_max,
                capabilities: 3,
                num_actuators: 2,
                state: 2,
                is_valid: 1,
                is_plugged_in: 1,
                ..*old(self)
            }),
            final(self).slot == old(self).slot,
            final(self).paused == old(self).paused,
            final(self).actuators_disabled == old(self).actuators_disabled,
            final(self).vibration_data_direct == old(self).vibration_data_direct,
            final(self).vibration_data_old_direct == old(self).vibration_data_old_direct,
    {
        self.capabilities = 0x0003;
        self.num_actuators = 2;
        self.vibration_data_max[0] = 255;
        self.vibration_data_max[1] = 255;
        self.state = 2;
        self.is_valid = 1;
        self.is_plugged_in = 1;
        self.control_data[0] = 0x00;
        self.control_data[1] = 0x50;
        self.control_data[2] = 0x00;
        self.control_data[3] = 0x00;
        self.control_data[12] = 0;
        self.control_data[13] = 0;
        self.control_data[14] = 0;
        self.control_data[15] = 0;
        self.control_data[16] = 0;
        self.control_data[17] = 0;
        self.control_data[18] = 0;
        self.control_data[19] = 0;
        self.control_data[8] = 0;
        self.control_data[9] = 0;
        self.control_data[10] = 0;
        self.control_data[11] = 0;
        self.control_data[4] = 127;
        self.control_data[5] = 127;
        self.control_data[6] = 127;
        self.control_data[7] = 127;
        assert(self.control_data@ =~= spec_begin_frame(old(self).control_data@));
    }

    /// Finishes a frame: in a menu, a movement stick pushed past a quarter of its range
    /// also presses the d-pad that way; then both button bitmaps are inverted.
    pub fn end_frame(&mut self, menu_open: bool)
        ensures
            final(self).control_data@ == spec_end_frame(old(self).control_data@, menu_open),
            *final(self) == (Device { control_data: final(self).control_data, ..*old(self) }),
    {
        if menu_open {
            if self.control_data[6] < 64 {
                self.control_data[2] = self.control_data[2] | 0x80;
                self.control_data[9] = 0xFF;
            } else if self.control_data[6] > (255 - 64) {
                self.control_data[2] = self.control_data[2] | 0x20;
                self.control_data[8] = 0xFF;
            }
            if self.control_data[7] < 64 {
                self.control_data[2] = self.control_data[2] | 0x10;
                self.control_data[10] = 0xFF;
            } else if self.control_data[7] > (255 - 64) {
                self.control_data[2] = self.control_data[2] | 0x40;
                self.control_data[11] = 0xFF;
            }
        }
        self.control_data[2] = !self.control_data[2];
        self.control_data[3] = !self.control_data[3];
    }

    /// Sets one rumble motor to `strength` (the share of its maximum that the game asks
    /// for) and returns the rumble to send; nothing while the motors are off or the
    /// controller cannot rumble.
    pub fn activate_actuator(&mut self, idx: u32, strength: u8) -> (r: Option<RumbleRequest>)
        requires
            old(self).actuators_disabled == 0 && old(self).can_rumble() && idx
                < old(self).num_actuators ==> idx < 32,
        ensures
            if old(self).actuators_disabled != 0 || !old(self).can_rumble() || idx
                >= old(self).num_actuators {
                r is None && *final(self) == *old(self)
            } else {
                &&& final(self).vibration_data_direct@ == old(self).vibration_data_direct@.update(
                    idx as int,
                    strength,
                )
                &&& r == Some(final(self).spec_rumble())
                &&& final(self).paused == old(self).paused
                &&& final(self).actuators_disabled == old(self).actuators_disabled
                &&& final(self).slot == old(self).slot
                &&& final(self).control_data == old(self).control_data
                &&& final(self).vibration_data_old_direct == old(self).vibration_data_old_direct
            },
    {
        if self.actuators_disabled != 0 {
            return None;
        }
        if self.state == 2 && (self.capabilities & 0x02 != 0) {
            if idx < self.num_actuators {
                self.vibration_data_direct[idx as usize] = strength;
                return Some(self.rumble_request());
            }
        }
        None
    }

    pub fn enable_actuators(&mut self)
        ensures
            *final(self) == (Device { actuators_disabled: 0, ..*old(self) }),
    {
        self.actuators_disabled = 0;
    }

    /// Turns the motors off: clears their direct values and returns the rumble stop to
    /// send. Nothing changes where they are off already.
    pub fn disable_actuators(&mut self) -> (r: Option<RumbleRequest>)
        requires
            old(self).actuators_disabled == 0 && old(self).can_rumble() ==> old(self).num_actuators
                <= 32,
        ensures
            old(self).actuators_disabled != 0 ==> r is None && *final(self) == *old(self),
            old(self).actuators_disabled == 0 ==> {
                &&& final(self).actuators_disabled == 1
                &&& if old(self).can_rumble() {
                    &&& final(self).vibration_data_direct@ == Seq::new(
                        32,
                        |i: int|
                            if i < old(self).num_actuators {
                                0u8
                            } else {
                                old(self).vibration_data_direct@[i]
                            },
                    )
                    &&& r == Some(final(self).spec_rumble())
                } else {
                    final(self).vibration_data_direct == old(self).vibration_data_direct && r is None
                }
                &&& final(self).paused == old(self).paused
                &&& final(self).state == old(self).state
                &&& final(self).capabilities == old(self).capabilities
                &&& final(self).num_actuators == old(self).num_actuators
                &&& final(self).slot == old(self).slot
                &&& final(self).control_data == old(self).control_data
                &&& final(self).vibration_data_old_direct == old(self).vibration_data_old_direct
            },
    {
        if self.actuators_disabled != 0 {
            return None;
        }
        self.actuators_disabled = 1;
        if self.state == 2 && (self.capabilities & 0x02 != 0) {
            let n = self.num_actuators;
            let ghost d0 = self.vibration_data_direct@;
            let ghost before = *self;
            let mut i: u32 = 0;
            while i < n
                invariant
                    *self == (Device { vibration_data_direct: self.vibration_data_direct, ..before }),
                    n <= 32,
                    i <= n,
                    self.vibration_data_direct@.len() == 32,
                    forall|j: int|
                        0 <= j < 32 ==> #[trigger] self.vibration_data_direct@[j] == if j < i {
                            0u8
                        } else {
                            d0[j]
                        },
                decreases n - i,
            {
                self.vibration_data_direct[i as usize] = 0;
                i = i + 1;
            }
            assert(self.vibration_data_direct@ =~= Seq::new(
                32,
                |j: int|
                    if j < n {
                        0u8
                    } else {
                        d0[j]
                    },
            ));
            return Some(self.rumble_request());
        }
        None
    }

    /// Resets the motors: toggled off and back on, or on and back off, keeping whether they
    /// are off. Returns the rumble stop that turning them off asks.
    pub fn reset_actuators(&mut self) -> (r: Option<RumbleRequest>)
        requires
            old(self).can_rumble() ==> old(self).num_actuators <= 32,
        ensures
            final(self).actuators_disabled == (if old(self).actuators_disabled != 0 {
                1u32
            } else {
                0u32
            }),
            r == (if old(self).can_rumble() {
                Some(final(self).spec_rumble())
            } else {
                None
            }),
            old(self).can_rumble() ==> final(self).vibration_data_direct@ == Seq::new(
                32,
                |i: int|
                    if i < old(self).num_actuators {
                        0u8
                    } else {
                        old(self).vibration_data_direct@[i]
                    },
            ),
            !old(self).can_rumble() ==> final(self).vibration_data_direct == old(
                self,
            ).vibration_data_direct,
            final(self).paused == old(self).paused,
            final(self).control_data == old(self).control_data,
            final(self).slot == old(self).slot,
    {
        if self.actuators_disabled != 0 {
            self.enable_actuators();
            self.disable_actuators()
        } else {
            let r = self.disable_actuators();
            self.enable_actuators();
            r
        }
    }

    /// Pauses the motors: the first pause saves and clears their direct values and
    /// returns the rumble stop. Every pause counts.
    pub fn pause(&mut self) -> (r: Option<RumbleRequest>)
        requires
            old(self).paused < u32::MAX,
            old(self).paused == 0 && old(self).can_rumble() ==> old(self).num_actuators <= 32,
        ensures
            final(self).paused == old(self).paused + 1,
            if old(self).paused == 0 && old(self).can_rumble() {
                &&& final(self).vibration_data_direct@ == paused_direct(
                    old(self).vibration_data_direct@,
                    old(self).num_actuators,
                )
                &&& final(self).vibration_data_old_direct@ == paused_saved(
                    old(self).vibration_data_direct@,
                    old(self).vibration_data_old_direct@,
                    old(self).num_actuators,
                )
                &&& r == Some(final(self).spec_rumble())
            } else {
                &&& r is None
                &&& final(self).vibration_data_direct == old(self).vibration_data_direct
                &&& final(self).vibration_data_old_direct == old(self).vibration_data_old_direct
            },
            final(self).actuators_disabled == old(self).actuators_disabled,
            final(self).control_data == old(self).control_data,
            final(self).slot == old(self).slot,
            final(self).state == old(self).state,
            final(self).capabilities == old(self).capabilities,
            final(self).num_actuators == old(self).num_actuators,
    {
        let mut r = None;
        if self.paused == 0 {
            if self.state == 2 && (self.capabilities & 0x02 != 0) {
                let n = self.num_actuators;
                let ghost d0 = self.vibration_data_direct@;
                let ghost o0 = self.vibration_data_old_direct@;
                let ghost before = *self;
                let mut i: u32 = 0;
                while i < n
                    invariant
                        *self == (Device {
                            vibration_data_direct: self.vibration_data_direct,
                            vibration_data_old_direct: self.vibration_data_old_direct,
                            ..before
                        }),
                        n <= 32,
                        i <= n,
                        self.vibration_data_direct@.len() == 32,
                        self.vibration_data_old_direct@.len() == 32,
                        forall|j: int|
                            0 <= j < 32 ==> #[trigger] self.vibration_data_direct@[j] == (if j < i {
                                0u8
                            } else {
                                d0[j]
                            }) && self.vibration_data_old_direct@[j] == (if j < i {
                                d0[j]
                            } else {
                                o0[j]
                            }),
                    decreases n - i,
                {
                    self.vibration_data_old_direct[i as usize] = self.vibration_data_direct[i as usize];
                    self.vibration_data_direct[i as usize] = 0;
                    i = i + 1;
                }
                assert(self.vibration_data_direct@ =~= paused_direct(d0, n));
                assert forall|j: int| 0 <= j < 32 implies self.vibration_data_old_direct@[j]
                    == paused_saved(d0, o0, n)[j] by {
                    assert(self.vibration_data_direct@[j] == (if j < i {
                        0u8
                    } else {
                        d0[j]
                    }));
                    assert(i == n);
                }
                assert(self.vibration_data_old_direct@ =~= paused_saved(d0, o0, n));
                r = Some(self.rumble_request());
            }
        }
        self.paused = self.paused + 1;
        r
    }

    /// Undoes one pause; the last one restores the saved direct values and returns the
    /// rumble they ask for.
    pub fn unpause(&mut self) -> (r: Option<RumbleRequest>)
        requires
            old(self).paused == 1 && old(self).can_rumble() ==> old(self).num_actuators <= 32,
        ensures
            final(self).paused == (if old(self).paused > 0 {
                old(self).paused - 1
            } else {
                0
            }),
            if old(self).paused == 1 && old(self).can_rumble() {
                &&& final(self).vibration_data_direct@ == resumed_direct(
                    old(self).vibration_data_direct@,
                    old(self).vibration_data_old_direct@,
                    old(self).num_actuators,
                )
                &&& r == Some(final(self).spec_rumble())
            } else {
                &&& r is None
                &&& final(self).vibration_data_direct == old(self).vibration_data_direct
            },
            final(self).vibration_data_old_direct == old(self).vibration_data_old_direct,
            final(self).actuators_disabled == old(self).actuators_disabled,
            final(self).control_data == old(self).control_data,
            final(self).slot == old(self).slot,
            final(self).state == old(self).state,
            final(self).capabilities == old(self).capabilities,
            final(self).num_actuators == old(self).num_actuators,
    {
        let mut r = None;
        if self.paused > 0 {
            self.paused = self.paused - 1;
            if self.paused == 0 {
                if self.state == 2 && (self.capabilities & 0x02 != 0) {
                    let n = self.num_actuators;
                    let ghost d0 = self.vibration_data_direct@;
                    let ghost before = *self;
                    let mut i: u32 = 0;
                    while i < n
                        invariant
                            *self == (Device { vibration_data_direct: self.vibration_data_direct, ..before }),
                            n <= 32,
                            i <= n,
                            self.vibration_data_direct@.len() == 32,
                            self.vibration_data_old_direct@.len() == 32,
                            self.vibration_data_old_direct == old(self).vibration_data_old_direct,
                            forall|j: int|
                                0 <= j < 32 ==> #[trigger] self.vibration_data_direct@[j] == (if j
                                    < i {
                                    self.vibration_data_old_direct@[j]
                                } else {
                                    d0[j]
                                }),
                        decreases n - i,
                    {
                        self.vibration_data_direct[i as usize] = self.vibration_data_old_direct[i as usize];
                        i = i + 1;
                    }
                    assert(self.vibration_data_direct@ =~= resumed_direct(
                        d0,
                        self.vibration_data_old_direct@,
                        n,
                    ));
                    r = Some(self.rumble_request());
                }
            }
        }
        r
    }
}

/// The control data at the start of a frame: buttons and pressures cleared, sticks
/// centred, the bytes past the pressures kept.
pub open spec fn spec_begin_frame(cd: Seq<u8>) -> Seq<u8> {
    Seq::new(
        32,
        |i: int|
            if i == 1 {
                0x50u8
            } else if 4 <= i < 8 {
                127u8
            } else if i < 20 {
                0u8
            } else {
                cd[i]
            },
    )
}

/// The control data at the end of a frame; see `Device::end_frame`.
pub open spec fn spec_end_frame(cd: Seq<u8>, menu_open: bool) -> Seq<u8> {
    let c1 = if menu_open && cd[6] < 64 {
        cd.update(2, cd[2] | 0x80).update(9, 0xFF)
    } else if menu_open && cd[6] > 191 {
        cd.update(2, cd[2] | 0x20).update(8, 0xFF)
    } else {
        cd
    };
    let c2 = if menu_open && c1[7] < 64 {
        c1.update(2, c1[2] | 0x10).update(10, 0xFF)
    } else if menu_open && c1[7] > 191 {
        c1.update(2, c1[2] | 0x40).update(11, 0xFF)
    } else {
        c1
    };
    c2.update(2, !c2[2]).update(3, !c2[3])
}

/// The direct vibration values after the first pause: the motors' cleared.
pub open spec fn paused_direct(direct: Seq<u8>, num_actuators: u32) -> Seq<u8> {
    Seq::new(
        32,
        |i: int|
            if i < num_actuators {
                0u8
            } else {
                direct[i]
            },
    )
}

/// The saved vibration values after the first pause: the motors' direct values.
pub open spec fn paused_saved(direct: Seq<u8>, saved: Seq<u8>, num_actuators: u32) -> Seq<u8> {
    Seq::new(
        32,
        |i: int|
            if i < num_actuators {
                direct[i]
            } else {
                saved[i]
            },
    )
}

/// The direct vibration values after the last unpause: the motors' saved values.
pub open spec fn resumed_direct(direct: Seq<u8>, saved: Seq<u8>, num_actuators: u32) -> Seq<u8> {
    Seq::new(
        32,
        |i: int|
            if i < num_actuators {
                saved[i]
            } else {
                direct[i]
            },
    )
}

/// Pausing the motors of a controller that was not paused and then unpausing them gives
/// back the direct vibration values it had.
pub proof fn lemma_pause_unpause_restores(direct: Seq<u8>, saved: Seq<u8>, num_actuators: u32)
    requires
        direct.len() == 32,
    ensures
        resumed_direct(
            paused_direct(direct, num_actuators),
            paused_saved(direct, saved, num_actuators),
            num_actuators,
        ) == direct,
{
    assert(resumed_direct(
        paused_direct(direct, num_actuators),
        paused_saved(direct, saved, num_actuators),
        num_actuators,
    ) =~= direct);
}

/// One keyboard action polled: where it is held, its button is pressed at full pressure.
pub open spec fn spec_key_step(
    kb: Map<Seq<char>, KeyState>,
    keys: Seq<bool>,
    cd: Seq<u8>,
    name: Seq<char>,
    button: InternalButton,
) -> (Map<Seq<char>, KeyState>, Seq<u8>) {
    let (pressed, kb1) = spec_poll_key(kb, name, keys);
    (kb1, if pressed {
        spec_update_button(cd, button, true, 0xFF)
    } else {
        cd
    })
}

/// One menu key polled: where it reads as held, its button is pressed at full pressure.
pub open spec fn spec_menu_step(
    menus: Map<Seq<char>, (u32, Option<Seq<char>>, bool)>,
    keys: Seq<bool>,
    cd: Seq<u8>,
    name: Seq<char>,
    button: InternalButton,
) -> (Map<Seq<char>, (u32, Option<Seq<char>>, bool)>, Seq<u8>) {
    let (pressed, menus1) = spec_poll_menu(menus, name, keys);
    (menus1, if pressed {
        spec_update_button(cd, button, true, 0xFF)
    } else {
        cd
    })
}

/// The keyboard's action keys polled in the game's order.
pub open spec fn spec_keyboard_actions(kb: Map<Seq<char>, KeyState>, keys: Seq<bool>, cd: Seq<u8>) -> (
    Map<Seq<char>, KeyState>,
    Seq<u8>,
) {
    let (kb, cd) = spec_key_step(kb, keys, cd, "Pause"@, InternalButton::Start);
    let (kb, cd) = spec_key_step(kb, keys, cd, "ViewToggle"@, InternalButton::Select);
    let (kb, cd) = spec_key_step(kb, keys, cd, "SwivelLock"@, InternalButton::R3);
    let (kb, cd) = spec_key_step(kb, keys, cd, "Ollie"@, InternalButton::Cross);
    let (kb, cd) = spec_key_step(kb, keys, cd, "Flip"@, InternalButton::Square);
    let (kb, cd) = spec_key_step(kb, keys, cd, "Grab"@, InternalButton::Circle);
    let (kb, cd) = spec_key_step(kb, keys, cd, "Grind"@, InternalButton::Triangle);
    let (kb, cd) = spec_key_step(kb, keys, cd, "SpinLeft"@, InternalButton::L1);
    let (kb, cd) = spec_key_step(kb, keys, cd, "SpinRight"@, InternalButton::R1);
    let (kb, cd) = spec_key_step(kb, keys, cd, "Nollie"@, InternalButton::L2);
    let (kb, cd) = spec_key_step(kb, keys, cd, "Switch"@, InternalButton::R2);
    let (kb, cd) = spec_key_step(kb, keys, cd, "Forward"@, InternalButton::DPadUp);
    let (kb, cd) = spec_key_step(kb, keys, cd, "Backward"@, InternalButton::DPadDown);
    let (kb, cd) = spec_key_step(kb, keys, cd, "Left"@, InternalButton::DPadLeft);
    spec_key_step(kb, keys, cd, "Right"@, InternalButton::DPadRight)
}

/// The menu keys polled in a menu: accept and back only to update their locks, then the
/// four directions onto the d-pad.
pub open spec fn spec_keyboard_menu(
    menus: Map<Seq<char>, (u32, Option<Seq<char>>, bool)>,
    keys: Seq<bool>,
    cd: Seq<u8>,
) -> (Map<Seq<char>, (u32, Option<Seq<char>>, bool)>, Seq<u8>) {
    let menus = spec_poll_menu(menus, "Accept"@, keys).1;
    let menus = spec_poll_menu(menus, "Accept2"@, keys).1;
    let menus = spec_poll_menu(menus, "Back"@, keys).1;
    let (menus, cd) = spec_menu_step(menus, keys, cd, "Up"@, InternalButton::DPadUp);
    let (menus, cd) = spec_menu_step(menus, keys, cd, "Down"@, InternalButton::DPadDown);
    let (menus, cd) = spec_menu_step(menus, keys, cd, "Left"@, InternalButton::DPadLeft);
    spec_menu_step(menus, keys, cd, "Right"@, InternalButton::DPadRight)
}

/// The axis byte of two opposite action keys, polled positive first.
pub open spec fn spec_keys_axis(
    kb: Map<Seq<char>, KeyState>,
    keys: Seq<bool>,
    pos: Seq<char>,
    neg: Seq<char>,
) -> (u8, Map<Seq<char>, KeyState>) {
    let (p, kb1) = spec_poll_key(kb, pos, keys);
    let (n, kb2) = spec_poll_key(kb1, neg, keys);
    (spec_keys_to_axis(p, n), kb2)
}

/// The keyboard polled for a frame: the menu state is updated first; nothing more is read
/// while the on-screen keyboard is up; in a menu the menu keys are read; then the action
/// keys, and the camera keys as a stick that replaces the camera stick where pushed
/// further.
#[verifier::opaque]
pub open spec fn spec_poll_keyboard(
    kb: Map<Seq<char>, KeyState>,
    menus: Map<Seq<char>, (u32, Option<Seq<char>>, bool)>,
    was_in_menu: bool,
    in_menu: bool,
    keyboard_on_screen: bool,
    keys: Seq<bool>,
    cd: Seq<u8>,
) -> (Map<Seq<char>, KeyState>, Map<Seq<char>, (u32, Option<Seq<char>>, bool)>, Seq<u8>) {
    let (kb, menus) = spec_switch_menu(kb, menus, was_in_menu, in_menu, keys);
    if keyboard_on_screen {
        (kb, menus, cd)
    } else {
        let (menus, cd) = if in_menu {
            spec_keyboard_menu(menus, keys, cd)
        } else {
            (menus, cd)
        };
        let (kb, cd) = spec_keyboard_actions(kb, keys, cd);
        let (x, kb) = spec_keys_axis(kb, keys, "CameraRight"@, "CameraLeft"@);
        let (y, kb) = spec_keys_axis(kb, keys, "CameraDown"@, "CameraUp"@);
        let (sx, sy) = spec_stick_max(cd[4], cd[5], x, y);
        (kb, menus, cd.update(4, sx).update(5, sy))
    }
}

/// The low byte of a pressure shifted up by seven bits: 128 where its lowest bit is set.
pub open spec fn pressure_byte(p: i16) -> u8 {
    if p & 1 == 0 {
        0
    } else {
        128
    }
}

/// An axis value reduced to an axis byte; see `Device::stick_axis_byte`.
pub open spec fn spec_axis_byte(v: i16) -> u8 {
    ((v as int + 32768) / 256) as u8
}

/// One gamepad action polled for `player`: where it is down, its button is pressed with
/// the pressure's low byte.
pub open spec fn spec_pad_step(
    gm: GamepadManager,
    player: usize,
    pads: Seq<PadInput>,
    cd: Seq<u8>,
    name: Seq<char>,
    button: InternalButton,
) -> Seq<u8> {
    let (pressed, p) = gm.spec_poll_button(player, name, pads);
    if pressed {
        spec_update_button(cd, button, true, pressure_byte(p))
    } else {
        cd
    }
}

/// The gamepad's button actions polled in the game's order.
pub open spec fn spec_pad_buttons(gm: GamepadManager, player: usize, pads: Seq<PadInput>, cd: Seq<u8>) -> Seq<u8> {
    let cd = spec_pad_step(gm, player, pads, cd, "Pause"@, InternalButton::Start);
    let cd = spec_pad_step(gm, player, pads, cd, "ViewToggle"@, InternalButton::Select);
    let cd = spec_pad_step(gm, player, pads, cd, "SwivelLock"@, InternalButton::R3);
    let cd = spec_pad_step(gm, player, pads, cd, "Ollie"@, InternalButton::Cross);
    let cd = spec_pad_step(gm, player, pads, cd, "Flip"@, InternalButton::Square);
    let cd = spec_pad_step(gm, player, pads, cd, "Grab"@, InternalButton::Circle);
    let cd = spec_pad_step(gm, player, pads, cd, "Grind"@, InternalButton::Triangle);
    let cd = spec_pad_step(gm, player, pads, cd, "SpinLeft"@, InternalButton::L1);
    let cd = spec_pad_step(gm, player, pads, cd, "SpinRight"@, InternalButton::R1);
    let cd = spec_pad_step(gm, player, pads, cd, "Nollie"@, InternalButton::L2);
    let cd = spec_pad_step(gm, player, pads, cd, "Switch"@, InternalButton::R2);
    let cd = spec_pad_step(gm, player, pads, cd, "Forward"@, InternalButton::DPadUp);
    let cd = spec_pad_step(gm, player, pads, cd, "Backward"@, InternalButton::DPadDown);
    let cd = spec_pad_step(gm, player, pads, cd, "Left"@, InternalButton::DPadLeft);
    spec_pad_step(gm, player, pads, cd, "Right"@, InternalButton::DPadRight)
}

/// Whether the gamepad actions that leave a network menu are held by `player`.
pub open spec fn exit_buttons_held(gm: GamepadManager, player: usize, pads: Seq<PadInput>) -> bool {
    gm.spec_poll_button(player, "Grind"@, pads).0 || gm.spec_poll_button(player, "Pause"@, pads).0
}

/// The gamepad polled for a frame, and the debounce after it: the debounce ends once the
/// exit buttons are released; the buttons are read; the camera and movement sticks
/// replace the sticks where pushed further; while the debounce lasts, triangle and start
/// read as released.
#[verifier::opaque]
pub open spec fn spec_poll_controller(
    gm: GamepadManager,
    player: usize,
    pads: Seq<PadInput>,
    cd: Seq<u8>,
    debounce: bool,
) -> (Seq<u8>, bool) {
    let debounce = debounce && exit_buttons_held(gm, player, pads);
    let cd = spec_pad_buttons(gm, player, pads, cd);
    let camera = gm.spec_poll_stick(player, "CameraStick"@, pads);
    let (cx, cy) = spec_stick_max(cd[4], cd[5], spec_axis_byte(camera.0), spec_axis_byte(camera.1));
    let cd = cd.update(4, cx).update(5, cy);
    let movement = gm.spec_poll_stick(player, "MovementStick"@, pads);
    let (mx, my) = spec_stick_max(cd[6], cd[7], spec_axis_byte(movement.0), spec_axis_byte(movement.1));
    let cd = cd.update(6, mx).update(7, my);
    let cd = if debounce {
        cd.update(3, cd[3] & 0xEF).update(2, cd[2] & 0xF7)
    } else {
        cd
    };
    (cd, debounce)
}

/// The first pad in a network menu: the debounce and whether an escape press is sent.
/// During the debounce nothing is sent and it ends on release; otherwise holding an exit
/// button sends escape and starts the debounce.
pub open spec fn spec_network_menu(gm: GamepadManager, pads: Seq<PadInput>, debounce: bool) -> (bool, bool) {
    let held = exit_buttons_held(gm, 0, pads);
    if debounce {
        (held, false)
    } else {
        (held, held)
    }
}

/// The state of the input after a frame of `Device::process`: the control data, the
/// network menu debounce, the action keys, the menu keys, whether the keybindings are in
/// menu mode, and the frame's key presses.
pub open spec fn spec_process(
    ctx: InputContext,
    slot: u32,
    keys: Seq<bool>,
    pads: Seq<PadInput>,
    network_menu_on_screen: bool,
    keyboard_on_screen: bool,
    menu_open: bool,
    cd: Seq<u8>,
) -> (
    Seq<u8>,
    bool,
    Map<Seq<char>, KeyState>,
    Map<Seq<char>, (u32, Option<Seq<char>>, bool)>,
    bool,
    Seq<u8>,
) {
    let cd0 = spec_begin_frame(cd);
    let km = ctx.keybind_manager;
    let gm = ctx.gamepad_manager;
    if !network_menu_on_screen {
        let (cd1, debounce) = spec_poll_controller(
            gm,
            slot as usize,
            pads,
            cd0,
            ctx.network_menu_exit_debounce,
        );
        if slot == 0 {
            let (kb, menus, cd2) = spec_poll_keyboard(
                km.key_bindings(),
                km.menu_keys(),
                km.in_menu(),
                menu_open,
                keyboard_on_screen,
                keys,
                cd1,
            );
            (spec_end_frame(cd2, menu_open), debounce, kb, menus, menu_open, ctx.keyboard.keys_down())
        } else {
            (
                spec_end_frame(cd1, menu_open),
                debounce,
                km.key_bindings(),
                km.menu_keys(),
                km.in_menu(),
                ctx.keyboard.keys_down(),
            )
        }
    } else {
        let (debounce, sent) = spec_network_menu(gm, pads, ctx.network_menu_exit_debounce);
        (
            spec_end_frame(cd0, menu_open),
            debounce,
            km.key_bindings(),
            km.menu_keys(),
            km.in_menu(),
            if sent {
                ctx.keyboard.keys_down().push(KEY_BACK)
            } else {
                ctx.keyboard.keys_down()
            },
        )
    }
}

impl Device {
    /// Fills the control data for a frame from the keyboard and the gamepads; see
    /// `spec_process`. The keyboard counts for the first controller only; while a network
    /// menu is up, only a gamepad's exit buttons are read, as an escape press.
    pub fn process(
        &mut self,
        ctx: &mut InputContext,
        keys: &[bool],
        pads: &Vec<PadInput>,
        network_menu_on_screen: bool,
        keyboard_on_screen: bool,
        menu_open: bool,
    )
        requires
            old(ctx).wf(),
            old(ctx).gamepad_manager.can_poll(old(self).slot as usize, pads@),
            old(ctx).gamepad_manager.can_poll(0, pads@),
        ensures
            final(ctx).wf(),
            (
                final(self).control_data@,
                final(ctx).network_menu_exit_debounce,
                final(ctx).keybind_manager.key_bindings(),
                final(ctx).keybind_manager.menu_keys(),
                final(ctx).keybind_manager.in_menu(),
                final(ctx).keyboard.keys_down(),
            ) == spec_process(
                *old(ctx),
                old(self).slot,
                keys@,
                pads@,
                network_menu_on_screen,
                keyboard_on_screen,
                menu_open,
                old(self).control_data@,
            ),
            final(ctx).keybind_manager.keys_bound() == old(ctx).keybind_manager.keys_bound(),
            final(ctx).gamepad_manager == old(ctx).gamepad_manager,
            final(ctx).park_editor_state == old(ctx).park_editor_state,
            final(ctx).is_using_keyboard == old(ctx).is_using_keyboard,
            final(ctx).is_cursor_visible == old(ctx).is_cursor_visible,
            final(ctx).is_playing_movie == old(ctx).is_playing_movie,
            final(self).vibration_data_max@ == old(self).vibration_data_max@.update(0, 255).update(
                1,
                255,
            ),
            *final(self) == (Device {
                control_data: final(self).control_data,
                vibration_data_max: final(self).vibration_data_max,
                capabilities: 3,
                num_actuators: 2,
                state: 2,
                is_valid: 1,
                is_plugged_in: 1,
                ..*old(self)
            }),
    {
        self.begin_frame();
        if !network_menu_on_screen {
            self.poll_controller(&ctx.gamepad_manager, pads, &mut ctx.network_menu_exit_debounce);
            if self.slot == 0 {
                self.poll_keyboard(&mut ctx.keybind_manager, keys, menu_open, keyboard_on_screen);
            }
        } else {
            Self::poll_controller_network_menu(
                &ctx.gamepad_manager,
                pads,
                &mut ctx.network_menu_exit_debounce,
                &mut ctx.keyboard,
            );
        }
        self.end_frame(menu_open);
    }

    /// Polls the keyboard for a frame; see `spec_poll_keyboard`.
    fn poll_keyboard(
        &mut self,
        km: &mut KeybindManager,
        keys: &[bool],
        in_menu: bool,
        keyboard_on_screen: bool,
    )
        requires
            old(km).wf(),
        ensures
            final(km).wf(),
            (final(km).key_bindings(), final(km).menu_keys(), final(self).control_data@)
                == spec_poll_keyboard(
                old(km).key_bindings(),
                old(km).menu_keys(),
                old(km).in_menu(),
                in_menu,
                keyboard_on_screen,
                keys@,
                old(self).control_data@,
            ),
            final(km).in_menu() == in_menu,
            final(km).keys_bound() == old(km).keys_bound(),
            *final(self) == (Device { control_data: final(self).control_data, ..*old(self) }),
    {
        reveal(spec_poll_keyboard);
        km.set_in_menu(in_menu, keys);
        if keyboard_on_screen {
            return;
        }
        if in_menu {
            let _ = km.poll_menu_binding("Accept", keys);
            let _ = km.poll_menu_binding("Accept2", keys);
            let _ = km.poll_menu_binding("Back", keys);
            self.poll_menu_key(km, keys, "Up", InternalButton::DPadUp);
            self.poll_menu_key(km, keys, "Down", InternalButton::DPadDown);
            self.poll_menu_key(km, keys, "Left", InternalButton::DPadLeft);
            self.poll_menu_key(km, keys, "Right", InternalButton::DPadRight);
        }
        self.poll_keyboard_key(km, keys, "Pause", InternalButton::Start);
        self.poll_keyboard_key(km, keys, "ViewToggle", InternalButton::Select);
        self.poll_keyboard_key(km, keys, "SwivelLock", InternalButton::R3);
        self.poll_keyboard_key(km, keys, "Ollie", InternalButton::Cross);
        self.poll_keyboard_key(km, keys, "Flip", InternalButton::Square);
        self.poll_keyboard_key(km, keys, "Grab", InternalButton::Circle);
        self.poll_keyboard_key(km, keys, "Grind", InternalButton::Triangle);
        self.poll_keyboard_key(km, keys, "SpinLeft", InternalButton::L1);
        self.poll_keyboard_key(km, keys, "SpinRight", InternalButton::R1);
        self.poll_keyboard_key(km, keys, "Nollie", InternalButton::L2);
        self.poll_keyboard_key(km, keys, "Switch", InternalButton::R2);
        self.poll_keyboard_key(km, keys, "Forward", InternalButton::DPadUp);
        self.poll_keyboard_key(km, keys, "Backward", InternalButton::DPadDown);
        self.poll_keyboard_key(km, keys, "Left", InternalButton::DPadLeft);
        self.poll_keyboard_key(km, keys, "Right", InternalButton::DPadRight);
        let camera_x = Self::keyboard_keys_to_axis(km, keys, "CameraRight", "CameraLeft");
        let camera_y = Self::keyboard_keys_to_axis(km, keys, "CameraDown", "CameraUp");
        let (x, y) = Self::stick_max(self.control_data[4], self.control_data[5], camera_x, camera_y);
        self.control_data[4] = x;
        self.control_data[5] = y;
    }

    /// Polls one action key; where it is held, its button is pressed at full pressure.
    fn poll_keyboard_key(&mut self, km: &mut KeybindManager, keys: &[bool], name: &str, button: InternalButton)
        requires
            old(km).wf(),
        ensures
            final(km).wf(),
            (final(km).key_bindings(), final(self).control_data@) == spec_key_step(
                old(km).key_bindings(),
                keys@,
                old(self).control_data@,
                name@,
                button,
            ),
            final(km).menu_bindings() == old(km).menu_bindings(),
            final(km).keys_bound() == old(km).keys_bound(),
            final(km).in_menu() == old(km).in_menu(),
            *final(self) == (Device { control_data: final(self).control_data, ..*old(self) }),
    {
        let pressed = km.poll_key_binding(name, keys);
        let pressure: u8 = if pressed {
            0xFF
        } else {
            0x00
        };
        if pressed {
            self.update_internal_button(button, pressed, pressure);
        }
    }

    /// Polls one menu key; where it reads as held, its button is pressed at full pressure.
    fn poll_menu_key(&mut self, km: &mut KeybindManager, keys: &[bool], name: &str, button: InternalButton)
        requires
            old(km).wf(),
        ensures
            final(km).wf(),
            (final(km).menu_keys(), final(self).control_data@) == spec_menu_step(
                old(km).menu_keys(),
                keys@,
                old(self).control_data@,
                name@,
                button,
            ),
            final(km).key_bindings() == old(km).key_bindings(),
            final(km).keys_bound() == old(km).keys_bound(),
            final(km).in_menu() == old(km).in_menu(),
            *final(self) == (Device { control_data: final(self).control_data, ..*old(self) }),
    {
        let pressed = km.poll_menu_binding(name, keys);
        let pressure: u8 = if pressed {
            0xFF
        } else {
            0x00
        };
        if pressed {
            self.update_internal_button(button, pressed, pressure);
        }
    }

    /// The axis byte of two opposite action keys; see `spec_keys_axis`.
    fn keyboard_keys_to_axis(km: &mut KeybindManager, keys: &[bool], name_positive: &str, name_negative: &str) -> (r: u8)
        requires
            old(km).wf(),
        ensures
            final(km).wf(),
            (r, final(km).key_bindings()) == spec_keys_axis(
                old(km).key_bindings(),
                keys@,
                name_positive@,
                name_negative@,
            ),
            final(km).menu_bindings() == old(km).menu_bindings(),
            final(km).keys_bound() == old(km).keys_bound(),
            final(km).in_menu() == old(km).in_menu(),
    {
        let pos = km.poll_key_binding(name_positive, keys);
        let neg = km.poll_key_binding(name_negative, keys);
        Self::keys_to_axis(pos, neg)
    }

    /// Polls the gamepad for a frame; see `spec_poll_controller`.
    fn poll_controller(&mut self, gm: &GamepadManager, pads: &Vec<PadInput>, debounce: &mut bool)
        requires
            gm.can_poll(old(self).slot as usize, pads@),
        ensures
            (final(self).control_data@, *final(debounce)) == spec_poll_controller(
                *gm,
                old(self).slot as usize,
                pads@,
                old(self).control_data@,
                *old(debounce),
            ),
            *final(self) == (Device { control_data: final(self).control_data, ..*old(self) }),
    {
        reveal(spec_poll_controller);
        let player = self.slot as usize;
        if *debounce {
            let grind = gm.poll_button_binding(player, "Grind", pads).0;
            let pause = gm.poll_button_binding(player, "Pause", pads).0;
            if !grind && !pause {
                *debounce = false;
            }
        }
        self.poll_controller_button(gm, player, pads, "Pause", InternalButton::Start);
        self.poll_controller_button(gm, player, pads, "ViewToggle", InternalButton::Select);
        self.poll_controller_button(gm, player, pads, "SwivelLock", InternalButton::R3);
        self.poll_controller_button(gm, player, pads, "Ollie", InternalButton::Cross);
        self.poll_controller_button(gm, player, pads, "Flip", InternalButton::Square);
        self.poll_controller_button(gm, player, pads, "Grab", InternalButton::Circle);
        self.poll_controller_button(gm, player, pads, "Grind", InternalButton::Triangle);
        self.poll_controller_button(gm, player, pads, "SpinLeft", InternalButton::L1);
        self.poll_controller_button(gm, player, pads, "SpinRight", InternalButton::R1);
        self.poll_controller_button(gm, player, pads, "Nollie", InternalButton::L2);
        self.poll_controller_button(gm, player, pads, "Switch", InternalButton::R2);
        self.poll_controller_button(gm, player, pads, "Forward", InternalButton::DPadUp);
        self.poll_controller_button(gm, player, pads, "Backward", InternalButton::DPadDown);
        self.poll_controller_button(gm, player, pads, "Left", InternalButton::DPadLeft);
        self.poll_controller_button(gm, player, pads, "Right", InternalButton::DPadRight);
        let camera_stick = gm.poll_stick_binding(player, "CameraStick", pads);
        let camera_x = Self::stick_axis_byte(camera_stick.0);
        let camera_y = Self::stick_axis_byte(camera_stick.1);
        let (cx, cy) = Self::stick_max(self.control_data[4], self.control_data[5], camera_x, camera_y);
        self.control_data[4] = cx;
        self.control_data[5] = cy;
        let movement_stick = gm.poll_stick_binding(player, "MovementStick", pads);
        let move_x = Self::stick_axis_byte(movement_stick.0);
        let move_y = Self::stick_axis_byte(movement_stick.1);
        let (mx, my) = Self::stick_max(self.control_data[6], self.control_data[7], move_x, move_y);
        self.control_data[6] = mx;
        self.control_data[7] = my;
        if *debounce {
            self.control_data[3] = self.control_data[3] & 0xEF;
            self.control_data[2] = self.control_data[2] & 0xF7;
        }
    }

    /// Polls the first pad in a network menu; see `spec_network_menu`.
    fn poll_controller_network_menu(
        gm: &GamepadManager,
        pads: &Vec<PadInput>,
        debounce: &mut bool,
        keyboard: &mut Keyboard,
    )
        requires
            gm.can_poll(0, pads@),
        ensures
            *final(debounce) == spec_network_menu(*gm, pads@, *old(debounce)).0,
            final(keyboard).keys_down() == (if spec_network_menu(*gm, pads@, *old(debounce)).1 {
                old(keyboard).keys_down().push(KEY_BACK)
            } else {
                old(keyboard).keys_down()
            }),
    {
        let grind = gm.poll_button_binding(0, "Grind", pads).0;
        let pause = gm.poll_button_binding(0, "Pause", pads).0;
        if *debounce {
            if !grind && !pause {
                *debounce = false;
            }
            return;
        }
        if grind || pause {
            *debounce = true;
            keyboard.push_esc_down();
        }
    }

    /// Polls one gamepad action for `player`; see `spec_pad_step`.
    fn poll_controller_button(
        &mut self,
        gm: &GamepadManager,
        player: usize,
        pads: &Vec<PadInput>,
        name: &str,
        button: InternalButton,
    )
        requires
            gm.can_poll(player, pads@),
        ensures
            final(self).control_data@ == spec_pad_step(
                *gm,
                player,
                pads@,
                old(self).control_data@,
                name@,
                button,
            ),
            *final(self) == (Device { control_data: final(self).control_data, ..*old(self) }),
    {
        let (pressed, pressure) = gm.poll_button_binding(player, name, pads);
        if pressed {
            let byte: u8 = if pressure & 1 == 0 {
                0
            } else {
                128
            };
            self.update_internal_button(button, pressed, byte);
        }
    }
}

proof fn lemma_or_facts(a: u8, x: u8, y: u8)
    ensures
        (a | x) | x == a | x,
        (a | x) | y == (a | y) | x,
{
    assert((a | x) | x == a | x) by (bit_vector);
    assert((a | x) | y == (a | y) | x) by (bit_vector);
}

/// Recording a button press only sets bits and raises pressures: recording the same press
/// twice leaves the control data as recording it once, and two presses recorded in either
/// order leave the same control data.
pub proof fn lemma_update_button_idempotent_commutative(
    cd: Seq<u8>,
    b1: InternalButton,
    p1: bool,
    q1: u8,
    b2: InternalButton,
    p2: bool,
    q2: u8,
)
    requires
        cd.len() == 32,
    ensures
        spec_update_button(spec_update_button(cd, b1, p1, q1), b1, p1, q1) == spec_update_button(
            cd,
            b1,
            p1,
            q1,
        ),
        spec_update_button(spec_update_button(cd, b1, p1, q1), b2, p2, q2) == spec_update_button(
            spec_update_button(cd, b2, p2, q2),
            b1,
            p1,
            q1,
        ),
{
    let (y1, t1, r1) = button_layout(b1);
    let (y2, t2, r2) = button_layout(b2);
    let x1 = ((if p1 { 1u8 } else { 0u8 }) << t1) as u8;
    let x2 = ((if p2 { 1u8 } else { 0u8 }) << t2) as u8;
    lemma_or_facts(cd[y1], x1, x1);
    lemma_or_facts(cd[y1], x1, x2);
    let once = spec_update_button(cd, b1, p1, q1);
    let twice = spec_update_button(once, b1, p1, q1);
    assert(twice =~= once);
    let ab = spec_update_button(once, b2, p2, q2);
    let c2 = spec_update_button(cd, b2, p2, q2);
    let ba = spec_update_button(c2, b1, p1, q1);
    assert(ab =~= ba);
}

/// The d-pad button that a menu reads from the movement stick's horizontal byte: left of
/// the first quarter, right past the last, none in between.
pub open spec fn menu_stick_x_button(x: u8) -> Option<InternalButton> {
    if x < 64 {
        Some(InternalButton::DPadLeft)
    } else if x > 191 {
        Some(InternalButton::DPadRight)
    } else {
        None
    }
}

/// The d-pad button that a menu reads from the movement stick's vertical byte: up in the
/// first quarter, down past the last, none in between.
pub open spec fn menu_stick_y_button(y: u8) -> Option<InternalButton> {
    if y < 64 {
        Some(InternalButton::DPadUp)
    } else if y > 191 {
        Some(InternalButton::DPadDown)
    } else {
        None
    }
}

/// The control data with `b`, if any, recorded as fully pressed.
pub open spec fn press_full(cd: Seq<u8>, b: Option<InternalButton>) -> Seq<u8> {
    match b {
        Some(b) => spec_update_button(cd, b, true, 0xFF),
        None => cd,
    }
}

proof fn lemma_press_bits(a: u8)
    ensures
        a | ((1u8 << 7u8) as u8) == a | 0x80,
        a | ((1u8 << 5u8) as u8) == a | 0x20,
        a | ((1u8 << 4u8) as u8) == a | 0x10,
        a | ((1u8 << 6u8) as u8) == a | 0x40,
{
    assert(a | ((1u8 << 7u8) as u8) == a | 0x80) by (bit_vector);
    assert(a | ((1u8 << 5u8) as u8) == a | 0x20) by (bit_vector);
    assert(a | ((1u8 << 4u8) as u8) == a | 0x10) by (bit_vector);
    assert(a | ((1u8 << 6u8) as u8) == a | 0x40) by (bit_vector);
}

/// In a menu the movement stick works the d-pad: ending a frame with the menu open gives
/// what ending it outside a menu gives once the d-pad buttons that the stick points to
/// (left or right by its horizontal byte, up or down by its vertical one) are recorded
/// as fully pressed.
pub proof fn lemma_menu_stick_presses_dpad(cd: Seq<u8>)
    requires
        cd.len() == 32,
    ensures
        spec_end_frame(cd, true) == spec_end_frame(
            press_full(press_full(cd, menu_stick_x_button(cd[6])), menu_stick_y_button(cd[7])),
            false,
        ),
{
    lemma_press_bits(cd[2]);
    let c1 = press_full(cd, menu_stick_x_button(cd[6]));
    assert(c1[7] == cd[7]);
    assert(c1.len() == 32);
    lemma_press_bits(c1[2]);
    let c2 = press_full(c1, menu_stick_y_button(cd[7]));
    let e1 = if cd[6] < 64 {
        cd.update(2, cd[2] | 0x80).update(9, 0xFF)
    } else if cd[6] > 191 {
        cd.update(2, cd[2] | 0x20).update(8, 0xFF)
    } else {
        cd
    };
    assert(e1 =~= c1);
    let e2 = if e1[7] < 64 {
        e1.update(2, e1[2] | 0x10).update(10, 0xFF)
    } else if e1[7] > 191 {
        e1.update(2, e1[2] | 0x40).update(11, 0xFF)
    } else {
        e1
    };
    assert(e2 =~= c2);
}

} // verus!
