use vstd::prelude::*;

use crate::gamepad::{GamepadManager, PadInput};
use crate::keybinds::{is_pressed, key_pressed};
use crate::scancode::{
    SCANCODE_BACKSPACE, SCANCODE_DOWN, SCANCODE_EQUALS, SCANCODE_KP_ENTER, SCANCODE_LEFT,
    SCANCODE_LSHIFT, SCANCODE_MINUS, SCANCODE_PAGE_DOWN, SCANCODE_PAGE_UP, SCANCODE_RETURN,
    SCANCODE_RIGHT, SCANCODE_RSHIFT, SCANCODE_SPACE, SCANCODE_UP,
};

verus! {

/// The buttons that report a press only in the frame it starts.
pub const JUST_MASK: u16 = 0x9FFF;

pub open spec fn mask_bit(on: bool, n: u16) -> u16 {
    if on {
        (1u16 << n) as u16
    } else {
        0u16
    }
}

/// The park editor's button bits for this frame: each is set where its gamepad action is
/// down for the first player, or its fixed keyboard key is held.
pub open spec fn spec_editor_mask(gm: GamepadManager, pads: Seq<PadInput>, keys: Seq<bool>) -> u16 {
    let g = |name: Seq<char>| gm.spec_poll_button(0, name, pads).0;
    let k = |sc: u32| key_pressed(keys, sc);
    ((((((((((((0u16 | mask_bit(g("Ollie"@) || k(SCANCODE_RETURN) || k(SCANCODE_KP_ENTER), 5)) | mask_bit(g("Left"@) || k(SCANCODE_LEFT), 3)) | mask_bit(g("Right"@) || k(SCANCODE_RIGHT), 4)) | mask_bit(g("Backward"@) || k(SCANCODE_DOWN), 9)) | mask_bit(g("Forward"@) || k(SCANCODE_UP), 10)) | mask_bit(g("Switch"@) || k(SCANCODE_PAGE_DOWN), 7)) | mask_bit(g("SpinRight"@) || k(SCANCODE_PAGE_UP), 8)) | mask_bit(g("Grab"@) || (k(SCANCODE_SPACE) && (k(SCANCODE_LSHIFT) || k(SCANCODE_RSHIFT))), 1)) | mask_bit(g("Flip"@) || (k(SCANCODE_SPACE) && !(k(SCANCODE_LSHIFT) || k(SCANCODE_RSHIFT))), 2)) | mask_bit(g("Grind"@) || k(SCANCODE_BACKSPACE), 6)) | mask_bit(g("Nollie"@) || k(SCANCODE_MINUS), 13)) | mask_bit(g("SpinLeft"@) || k(SCANCODE_EQUALS), 14))
}

/// The park editor's own view of the controls.
pub struct ParkEditorControlsState {
    button_mask: u16,
    buttons_just: u16,
    debouncing: bool,
}

impl ParkEditorControlsState {
    pub closed spec fn button_mask(self) -> u16 {
        self.button_mask
    }

    pub closed spec fn buttons_just(self) -> u16 {
        self.buttons_just
    }

    pub closed spec fn debouncing(self) -> bool {
        self.debouncing
    }

    pub fn new() -> (r: Self)
        ensures
            r.button_mask() == 0,
            r.buttons_just() == 0,
            !r.debouncing(),
    {
        Self { button_mask: 0, buttons_just: 0, debouncing: false }
    }

    /// The button bits of this frame; see `spec_editor_mask`.
    #[verifier::rlimit(60)]
    pub fn button_mask_for(gm: &GamepadManager, pads: &Vec<PadInput>, keys: &[bool]) -> (r: u16)
        requires
            gm.can_poll(0, pads@),
        ensures
            r == spec_editor_mask(*gm, pads@, keys@),
    {
        let mut m: u16 = 0;
        if gm.poll_button_binding(0, "Ollie", pads).0 || is_pressed(keys, SCANCODE_RETURN) || is_pressed(keys, SCANCODE_KP_ENTER) {
            m = m | (1u16 << 5u16);
        } else {
            m = m | 0u16;
        }
        if gm.poll_button_binding(0, "Left", pads).0 || is_pressed(keys, SCANCODE_LEFT) {
            m = m | (1u16 << 3u16);
        } else {
            m = m | 0u16;
        }
        if gm.poll_button_binding(0, "Right", pads).0 || is_pressed(keys, SCANCODE_RIGHT) {
            m = m | (1u16 << 4u16);
        } else {
            m = m | 0u16;
        }
        if gm.poll_button_binding(0, "Backward", pads).0 || is_pressed(keys, SCANCODE_DOWN) {
            m = m | (1u16 << 9u16);
        } else {
            m = m | 0u16;
        }
        if gm.poll_button_binding(0, "Forward", pads).0 || is_pressed(keys, SCANCODE_UP) {
            m = m | (1u16 << 10u16);
        } else {
            m = m | 0u16;
        }
        if gm.poll_button_binding(0, "Switch", pads).0 || is_pressed(keys, SCANCODE_PAGE_DOWN) {
            m = m | (1u16 << 7u16);
        } else {
            m = m | 0u16;
        }
        if gm.poll_button_binding(0, "SpinRight", pads).0 || is_pressed(keys, SCANCODE_PAGE_UP) {
            m = m | (1u16 << 8u16);
        } else {
            m = m | 0u16;
        }
        if gm.poll_button_binding(0, "Grab", pads).0 || (is_pressed(keys, SCANCODE_SPACE) && (is_pressed(keys, SCANCODE_LSHIFT) || is_pressed(keys, SCANCODE_RSHIFT))) {
            m = m | (1u16 << 1u16);
        } else {
            m = m | 0u16;
        }
        if gm.poll_button_binding(0, "Flip", pads).0 || (is_pressed(keys, SCANCODE_SPACE) && !(is_pressed(keys, SCANCODE_LSHIFT) || is_pressed(keys, SCANCODE_RSHIFT))) {
            m = m | (1u16 << 2u16);
        } else {
            m = m | 0u16;
        }
        if gm.poll_button_binding(0, "Grind", pads).0 || is_pressed(keys, SCANCODE_BACKSPACE) {
            m = m | (1u16 << 6u16);
        } else {
            m = m | 0u16;
        }
        if gm.poll_button_binding(0, "Nollie", pads).0 || is_pressed(keys, SCANCODE_MINUS) {
            m = m | (1u16 << 13u16);
        } else {
            m = m | 0u16;
        }
        if gm.poll_button_binding(0, "SpinLeft", pads).0 || is_pressed(keys, SCANCODE_EQUALS) {
            m = m | (1u16 << 14u16);
        } else {
            m = m | 0u16;
        }
        proof {
            reveal_strlit("Ollie");
            reveal_strlit("Left");
            reveal_strlit("Right");
            reveal_strlit("Backward");
            reveal_strlit("Forward");
            reveal_strlit("Switch");
            reveal_strlit("SpinRight");
            reveal_strlit("Grab");
            reveal_strlit("Flip");
            reveal_strlit("Grind");
            reveal_strlit("Nollie");
            reveal_strlit("SpinLeft");
        }
        m
    }

    /// Takes the frame's button bits: unless debouncing, the newly pressed ones become the
    /// frame's fresh presses; a debounce ends once every button is released.
    pub fn update(&mut self, new_button_mask: u16)
        ensures
            final(self).buttons_just() == (if old(self).debouncing() {
                old(self).buttons_just()
            } else {
                !old(self).button_mask() & new_button_mask
            }),
            final(self).button_mask() == new_button_mask,
            final(self).debouncing() == (old(self).debouncing() && new_button_mask != 0),
    {
        if !self.debouncing {
            self.buttons_just = !self.button_mask & new_button_mask;
        }
        self.button_mask = new_button_mask;
        if self.debouncing && self.button_mask == 0 {
            self.debouncing = false;
        }
    }

    /// Starts a debounce: no fresh presses until every button is released.
    pub fn debounce(&mut self)
        ensures
            final(self).debouncing(),
            final(self).buttons_just() == 0,
            final(self).button_mask() == old(self).button_mask(),
    {
        self.debouncing = true;
        self.buttons_just = 0x0000;
    }

    /// The buttons as the editor reads them: fresh presses for the buttons of
    /// `JUST_MASK`, held state for the others.
    pub fn get_button_state(&self) -> (r: u16)
        ensures
            r == (self.buttons_just() & JUST_MASK) | (self.button_mask() & !JUST_MASK),
    {
        (self.buttons_just & JUST_MASK) | (self.button_mask & !JUST_MASK)
    }
}

/// A button held from one frame to the next is no fresh press in the second.
pub proof fn lemma_held_button_not_fresh(old_mask: u16, new_mask: u16, bit: u16)
    requires
        bit < 16,
        old_mask & (1u16 << bit) != 0,
    ensures
        (!old_mask & new_mask) & (1u16 << bit) == 0,
{
    assert(bit < 16 && old_mask & (1u16 << bit) != 0 ==> (!old_mask & new_mask) & (1u16 << bit)
        == 0) by (bit_vector);
}

} // verus!
