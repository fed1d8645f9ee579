use vstd::prelude::*;

use crate::input::InputEvent;

use crate::keybinds::KeybindManager;
use crate::scancode::{
    SCANCODE_BACKSPACE, SCANCODE_DELETE, SCANCODE_DOWN, SCANCODE_ESCAPE, SCANCODE_F1, SCANCODE_F2,
    SCANCODE_F3, SCANCODE_F4, SCANCODE_KP_ENTER, SCANCODE_LEFT, SCANCODE_RETURN, SCANCODE_RIGHT,
    SCANCODE_TAB, SCANCODE_UP,
};

verus! {

/// The game's code of the menu key "accept".
pub const KEY_ACCEPT: u8 = 25;

/// The game's code of the menu key "back".
pub const KEY_BACK: u8 = 26;

/// The game's codes of the four directions.
pub const KEY_LEFT: u8 = 20;
pub const KEY_RIGHT: u8 = 21;
pub const KEY_UP: u8 = 22;
pub const KEY_DOWN: u8 = 23;

/// Each arrow key gives the game the code of its own direction, whatever the keyboard
/// layout makes of it: left, right, up and down, four different codes.
pub proof fn lemma_arrow_keys_give_directions(keycode: u32)
    ensures
        spec_key_code(SCANCODE_LEFT, keycode) == Some(KEY_LEFT),
        spec_key_code(SCANCODE_RIGHT, keycode) == Some(KEY_RIGHT),
        spec_key_code(SCANCODE_UP, keycode) == Some(KEY_UP),
        spec_key_code(SCANCODE_DOWN, keycode) == Some(KEY_DOWN),
        KEY_LEFT != KEY_RIGHT && KEY_UP != KEY_DOWN && KEY_LEFT != KEY_UP && KEY_LEFT != KEY_DOWN
            && KEY_RIGHT != KEY_UP && KEY_RIGHT != KEY_DOWN,
{
}

/// The game's code for a key press: the navigation and function keys have codes of their
/// own; any other key gives its character where that is ASCII, and nothing else.
pub open spec fn spec_key_code(scancode: u32, keycode: u32) -> Option<u8> {
    if scancode == SCANCODE_LEFT {
        Some(20)
    } else if scancode == SCANCODE_RIGHT {
        Some(21)
    } else if scancode == SCANCODE_UP {
        Some(22)
    } else if scancode == SCANCODE_DOWN {
        Some(23)
    } else if scancode == SCANCODE_BACKSPACE {
        Some(24)
    } else if scancode == SCANCODE_RETURN || scancode == SCANCODE_KP_ENTER {
        Some(25)
    } else if scancode == SCANCODE_ESCAPE {
        Some(26)
    } else if scancode == SCANCODE_TAB {
        Some(27)
    } else if scancode == SCANCODE_F1 {
        Some(28)
    } else if scancode == SCANCODE_F2 {
        Some(29)
    } else if scancode == SCANCODE_F3 || scancode == SCANCODE_DELETE {
        Some(30)
    } else if scancode == SCANCODE_F4 {
        Some(31)
    } else if keycode < 128 {
        Some(keycode as u8)
    } else {
        None
    }
}

/// Whether the menu locks out the key `key`: "accept" while either accept binding is
/// locked, "back" while the back binding is.
pub open spec fn key_locked(km: KeybindManager, key: u8) -> bool {
    let m = km.menu_bindings();
    let locked = |n: Seq<char>| m.contains_key(n) && m[n].locked_out;
    if key == KEY_ACCEPT {
        locked("Accept"@) || locked("Accept2"@)
    } else if key == KEY_BACK {
        locked("Back"@)
    } else {
        false
    }
}

/// The keys that are not locked out, in order.
pub open spec fn unlocked_keys(km: KeybindManager, keys: Seq<u8>) -> Seq<u8>
    decreases keys.len(),
{
    if keys.len() == 0 {
        keys
    } else {
        let rest = unlocked_keys(km, keys.drop_last());
        if key_locked(km, keys.last()) {
            rest
        } else {
            rest.push(keys.last())
        }
    }
}

/// The key presses of the current frame, in the game's codes.
pub struct Keyboard {
    keys_down: Vec<u8>,
}

impl Keyboard {
    pub closed spec fn keys_down(self) -> Seq<u8> {
        self.keys_down@
    }

    pub fn new() -> (r: Self)
        ensures
            r.keys_down() == Seq::<u8>::empty(),
    {
        Self { keys_down: Vec::with_capacity(256) }
    }

    pub fn push_key_down(&mut self, key_code: u8)
        ensures
            final(self).keys_down() == old(self).keys_down().push(key_code),
    {
        self.keys_down.push(key_code);
    }

    /// Records a key press: `scancode` is the key, `keycode` what the current keyboard
    /// layout makes of it.
    pub fn handle_key_down(&mut self, scancode: u32, keycode: u32)
        ensures
            final(self).keys_down() == match spec_key_code(scancode, keycode) {
                Some(c) => old(self).keys_down().push(c),
                None => old(self).keys_down(),
            },
    {
        if scancode == SCANCODE_LEFT {
            self.push_key_down(20);
        } else if scancode == SCANCODE_RIGHT {
            self.push_key_down(21);
        } else if scancode == SCANCODE_UP {
            self.push_key_down(22);
        } else if scancode == SCANCODE_DOWN {
            self.push_key_down(23);
        } else if scancode == SCANCODE_BACKSPACE {
            self.push_key_down(24);
        } else if scancode == SCANCODE_RETURN || scancode == SCANCODE_KP_ENTER {
            self.push_key_down(25);
        } else if scancode == SCANCODE_ESCAPE {
            self.push_key_down(26);
        } else if scancode == SCANCODE_TAB {
            self.push_key_down(27);
        } else if scancode == SCANCODE_F1 {
            self.push_key_down(28);
        } else if scancode == SCANCODE_F2 {
            self.push_key_down(29);
        } else if scancode == SCANCODE_F3 || scancode == SCANCODE_DELETE {
            self.push_key_down(30);
        } else if scancode == SCANCODE_F4 {
            self.push_key_down(31);
        } else if keycode < 128 {
            self.push_key_down(keycode as u8);
        }
    }

    /// Records the key press of an input event; other events change nothing.
    pub fn handle_keyboard_event(&mut self, event: InputEvent)
        ensures
            final(self).keys_down() == match event {
                InputEvent::KeyDown { scancode: Some(c), keycode } => match spec_key_code(c, keycode) {
                    Some(k) => old(self).keys_down().push(k),
                    None => old(self).keys_down(),
                },
                _ => old(self).keys_down(),
            },
    {
        match event {
            InputEvent::KeyDown { scancode: Some(c), keycode } => {
                self.handle_key_down(c, keycode);
            },
            _ => {},
        }
    }

    /// Records a press of the escape key.
    pub fn push_esc_down(&mut self)
        ensures
            final(self).keys_down() == old(self).keys_down().push(KEY_BACK),
    {
        self.handle_key_down(SCANCODE_ESCAPE, 0);
    }

    /// Hands the frame's presses to the game: those that the menu does not lock out, up to
    /// 256 of them, in order. The frame's presses are cleared.
    pub fn update_keys_down(&mut self, keybind_manager: &KeybindManager) -> (r: Vec<u8>)
        requires
            keybind_manager.wf(),
        ensures
            r@ == unlocked_keys(*keybind_manager, old(self).keys_down()).take(
                if unlocked_keys(*keybind_manager, old(self).keys_down()).len() < 256 {
                    unlocked_keys(*keybind_manager, old(self).keys_down()).len() as int
                } else {
                    256
                },
            ),
            final(self).keys_down() == Seq::<u8>::empty(),
    {
        let ghost all = unlocked_keys(*keybind_manager, self.keys_down@);
        let n = self.keys_down.len();
        let mut makes: Vec<u8> = Vec::new();
        proof {
            assert(self.keys_down@.take(n as int) =~= self.keys_down@);
            assert(self.keys_down@.take(0) =~= Seq::<u8>::empty());
        }
        let mut i: usize = 0;
        while i < n
            invariant_except_break
                makes@.len() < 256,
            invariant
                n == self.keys_down@.len(),
                i <= n,
                keybind_manager.wf(),
                self.keys_down@ == old(self).keys_down@,
                all == unlocked_keys(*keybind_manager, self.keys_down@),
                makes@ == unlocked_keys(*keybind_manager, self.keys_down@.take(i as int)),
                makes@.len() <= 256,
                self.keys_down@.take(n as int) == self.keys_down@,
            ensures
                makes@ == all.take(
                    if all.len() < 256 {
                        all.len() as int
                    } else {
                        256
                    },
                ),
            decreases n - i,
        {
            let key = self.keys_down[i];
            let locked = if key == KEY_ACCEPT {
                keybind_manager.is_menu_key_locked("Accept") || keybind_manager.is_menu_key_locked(
                    "Accept2",
                )
            } else if key == KEY_BACK {
                keybind_manager.is_menu_key_locked("Back")
            } else {
                false
            };
            proof {
                reveal_strlit("Accept");
                reveal_strlit("Accept2");
                reveal_strlit("Back");
                assert(self.keys_down@.take(i + 1).drop_last() =~= self.keys_down@.take(i as int));
                lemma_unlocked_prefix(*keybind_manager, self.keys_down@, i as int + 1);
            }
            i = i + 1;
            if !locked {
                makes.push(key);
                if makes.len() >= 256 {
                    proof {
                        lemma_unlocked_prefix_take(*keybind_manager, self.keys_down@, i as int);
                    }
                    break;
                }
            }
        }
        self.keys_down.clear();
        makes
    }
}

proof fn lemma_unlocked_prefix(km: KeybindManager, keys: Seq<u8>, k: int)
    requires
        0 < k <= keys.len(),
    ensures
        unlocked_keys(km, keys.take(k)) == if key_locked(km, keys[k - 1]) {
            unlocked_keys(km, keys.take(k - 1))
        } else {
            unlocked_keys(km, keys.take(k - 1)).push(keys[k - 1])
        },
{
    assert(keys.take(k).drop_last() =~= keys.take(k - 1));
}

/// The unlocked keys of a prefix are a prefix of the unlocked keys of the whole.
proof fn lemma_unlocked_prefix_take(km: KeybindManager, keys: Seq<u8>, k: int)
    requires
        0 <= k <= keys.len(),
    ensures
        unlocked_keys(km, keys).take(unlocked_keys(km, keys.take(k)).len() as int) == unlocked_keys(
            km,
            keys.take(k),
        ),
        unlocked_keys(km, keys.take(k)).len() <= unlocked_keys(km, keys).len(),
    decreases keys.len() - k,
{
    if k < keys.len() {
        lemma_unlocked_prefix_take(km, keys, k + 1);
        lemma_unlocked_prefix(km, keys, k + 1);
        let a = unlocked_keys(km, keys.take(k));
        let b = unlocked_keys(km, keys.take(k + 1));
        let all = unlocked_keys(km, keys);
        assert(all.take(a.len() as int) =~= b.take(a.len() as int));
    } else {
        assert(keys.take(k) =~= keys);
    }
}

/// Whether the game's key debounce has run out: it is set, and its start plus its length
/// lies before `now`.
pub open spec fn spec_debounce_expired(start: u64, length: u32, now: u64) -> bool {
    start != 0 && length != 0 && start + length < now
}

pub fn debounce_expired(start: u64, length: u32, now: u64) -> (r: bool)
    requires
        start != 0 && length != 0 ==> start + length <= u64::MAX,
    ensures
        r == spec_debounce_expired(start, length, now),
{
    start != 0 && length != 0 && start + (length as u64) < now
}

} // verus!
