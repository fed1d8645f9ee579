use vstd::prelude::*;

use crate::bindings::{
    BindType, Button, Stick, button_of_code, gamepad_binds, keybinds, spec_gamepad_bind,
    spec_keybind, stick_of_code,
};
use crate::gamepad::{GamepadManager, PadInput, RumbleCommand, find_id, pad_event_effect, slot_count};
use crate::keybinds::{
    KeyState, KeybindManager, is_pressed, key_pressed, spec_menu_entry, spec_poll_key,
    spec_poll_menu,
};
use crate::keyboard::{Keyboard, spec_key_code};
use crate::parkeditor::ParkEditorControlsState;
use crate::scancode::{
    SCANCODE_DOWN, SCANCODE_ESCAPE, SCANCODE_KP_ENTER, SCANCODE_LEFT, SCANCODE_RETURN,
    SCANCODE_RIGHT, SCANCODE_SPACE, SCANCODE_UP,
};

verus! {

/// An input event, as far as the input code reads it: the mouse only tells that it was
/// used; a key press has its scancode, where SDL knows it, and its keycode; a pad that was
/// plugged in tells whether it could be opened.
#[derive(Clone, Copy, Debug, PartialEq, Eq, Structural)]
pub enum InputEvent {
    MouseMotion,
    MouseButtonDown,
    MouseButtonUp,
    KeyDown { scancode: Option<u32>, keycode: u32 },
    ControllerButtonDown { which: u32 },
    ControllerDeviceAdded { which: u32, opened: bool },
    ControllerDeviceRemoved { which: u32 },
    Other,
}

/// What a change of the input asks of the outside: a rumble to send, and whether to show
/// (`Some(true)`) or hide the mouse cursor.
#[derive(Clone, Copy, Debug, PartialEq, Eq, Structural)]
pub struct InputEffects {
    pub rumble: Option<RumbleCommand>,
    pub show_cursor: Option<bool>,
}

/// Whether an event tells that the player now uses the keyboard (`Some(true)`) or a pad;
/// while a movie plays the mouse tells nothing.
pub open spec fn spec_uses_keyboard(is_playing_movie: bool, event: InputEvent) -> Option<bool> {
    match event {
        InputEvent::MouseMotion | InputEvent::MouseButtonDown | InputEvent::MouseButtonUp => {
            if is_playing_movie {
                None
            } else {
                Some(true)
            }
        },
        InputEvent::KeyDown { .. } => Some(true),
        InputEvent::ControllerButtonDown { .. } => Some(false),
        _ => None,
    }
}

/// The action keys and scancode bindings after the keyboard part of `setup_controls` has
/// read the first `n` actions: a stored scancode binds its action, except escape for
/// pause.
pub open spec fn spec_bind_keys(
    kb: Map<Seq<char>, KeyState>,
    bound: Map<u32, Seq<char>>,
    codes: Seq<Option<u32>>,
    n: int,
) -> (Map<Seq<char>, KeyState>, Map<u32, Seq<char>>)
    decreases n,
{
    if n <= 0 {
        (kb, bound)
    } else {
        let (kb1, bound1) = spec_bind_keys(kb, bound, codes, n - 1);
        let name = spec_keybind(n - 1).1;
        match codes[n - 1] {
            Some(v) => if v == SCANCODE_ESCAPE && name == "Pause"@ {
                (kb1, bound1)
            } else {
                (kb1.insert(name, KeyState { key: v, locked_out: false }), bound1.insert(v, name))
            },
            None => (kb1, bound1),
        }
    }
}

/// The menu keys that `setup_controls` adds over the action keys bound in `bound`.
pub open spec fn spec_bind_menus(
    menus: Map<Seq<char>, (u32, Option<Seq<char>>, bool)>,
    bound: Map<u32, Seq<char>>,
) -> Map<Seq<char>, (u32, Option<Seq<char>>, bool)> {
    menus.insert("Accept"@, spec_menu_entry(bound, SCANCODE_RETURN, "Ollie"@)).insert(
        "Accept2"@,
        spec_menu_entry(bound, SCANCODE_KP_ENTER, "Ollie"@),
    ).insert("Back"@, spec_menu_entry(bound, SCANCODE_ESCAPE, "Grind"@)).insert(
        "Up"@,
        spec_menu_entry(bound, SCANCODE_UP, "Forward"@),
    ).insert("Down"@, spec_menu_entry(bound, SCANCODE_DOWN, "Backward"@)).insert(
        "Left"@,
        spec_menu_entry(bound, SCANCODE_LEFT, "Left"@),
    ).insert("Right"@, spec_menu_entry(bound, SCANCODE_RIGHT, "Right"@))
}

/// The button and stick bindings after the gamepad part of `setup_controls` has read the
/// first `n` actions: a stored number that names a button (or stick, for a stick action)
/// binds it.
pub open spec fn spec_bind_pads(
    buttons: Map<Seq<char>, Button>,
    sticks: Map<Seq<char>, Stick>,
    values: Seq<i32>,
    n: int,
) -> (Map<Seq<char>, Button>, Map<Seq<char>, Stick>)
    decreases n,
{
    if n <= 0 {
        (buttons, sticks)
    } else {
        let (b1, s1) = spec_bind_pads(buttons, sticks, values, n - 1);
        let name = spec_gamepad_bind(n - 1).1;
        match spec_gamepad_bind(n - 1).2 {
            BindType::Button { .. } => match button_of_code(values[n - 1]) {
                Some(b) => (b1.insert(name, b), s1),
                None => (b1, s1),
            },
            BindType::Stick { .. } => match stick_of_code(values[n - 1]) {
                Some(st) => (b1, s1.insert(name, st)),
                None => (b1, s1),
            },
        }
    }
}

/// What polling for a movie break gives, and the action and menu keys after it: the
/// gamepad's ollie or pause, the keyboard's ollie or pause, either accept key, the back
/// key, or space. Every one of them is polled.
pub open spec fn spec_movie_break(
    km: KeybindManager,
    gm: GamepadManager,
    keys: Seq<bool>,
    pads: Seq<PadInput>,
) -> (bool, Map<Seq<char>, KeyState>, Map<Seq<char>, (u32, Option<Seq<char>>, bool)>) {
    let g1 = gm.spec_poll_button(0, "Ollie"@, pads).0;
    let g2 = gm.spec_poll_button(0, "Pause"@, pads).0;
    let (k1, kb) = spec_poll_key(km.key_bindings(), "Ollie"@, keys);
    let (k2, kb) = spec_poll_key(kb, "Pause"@, keys);
    let (m1, menus) = spec_poll_menu(km.menu_keys(), "Accept"@, keys);
    let (m2, menus) = spec_poll_menu(menus, "Accept2"@, keys);
    let (m3, menus) = spec_poll_menu(menus, "Back"@, keys);
    (g1 || g2 || k1 || k2 || m1 || m2 || m3 || key_pressed(keys, SCANCODE_SPACE), kb, menus)
}

/// The input state of the game: keyboard and gamepad bindings, the frame's key presses,
/// the park editor's buttons, and what the player last used.
pub struct InputContext {
    pub keybind_manager: KeybindManager,
    pub gamepad_manager: GamepadManager,
    pub keyboard: Keyboard,
    pub park_editor_state: ParkEditorControlsState,
    pub is_using_keyboard: bool,
    pub is_cursor_visible: bool,
    /// Set when a gamepad left a network menu, until its buttons are released.
    pub network_menu_exit_debounce: bool,
    pub is_playing_movie: bool,
}

impl InputContext {
    /// The context of a single-player game whose pads are not yet connected and whose
    /// controls are not yet bound.
    pub fn new() -> (r: Self)
        ensures
            r.wf(),
            r.keybind_manager.key_bindings() == Map::<Seq<char>, crate::keybinds::KeyState>::empty(),
            r.keybind_manager.menu_bindings() == Map::<Seq<char>, crate::keybinds::MenuBinding>::empty(),
            !r.keybind_manager.in_menu(),
            r.gamepad_manager.max_players() == 1,
            r.gamepad_manager.ids() == Seq::<u32>::empty(),
            r.gamepad_manager.buttons() == Map::<Seq<char>, crate::bindings::Button>::empty(),
            r.gamepad_manager.sticks() == Map::<Seq<char>, crate::bindings::Stick>::empty(),
            r.keyboard.keys_down() == Seq::<u8>::empty(),
            r.is_using_keyboard,
            r.is_cursor_visible,
            !r.network_menu_exit_debounce,
            !r.is_playing_movie,
    {
        InputContext {
            keybind_manager: KeybindManager::new(),
            gamepad_manager: GamepadManager::new(1),
            keyboard: Keyboard::new(),
            park_editor_state: ParkEditorControlsState::new(),
            is_using_keyboard: true,
            is_cursor_visible: true,
            network_menu_exit_debounce: false,
            is_playing_movie: false,
        }
    }

    /// Whether the mouse cursor is to be shown: while the keyboard is in use and the game
    /// wants a cursor.
    pub open spec fn cursor_shown(self) -> bool {
        self.is_using_keyboard && self.is_cursor_visible
    }

    fn show_hide_cursor(&self) -> (r: bool)
        ensures
            r == self.cursor_shown(),
    {
        self.is_using_keyboard && self.is_cursor_visible
    }

    /// The game wants a cursor; returns whether it is to be shown.
    pub fn set_cursor_active(&mut self) -> (r: bool)
        ensures
            *final(self) == (InputContext { is_cursor_visible: true, ..*old(self) }),
            r == final(self).cursor_shown(),
    {
        self.is_cursor_visible = true;
        self.show_hide_cursor()
    }

    /// The game wants no cursor; returns whether it is to be shown (never).
    pub fn set_cursor_inactive(&mut self) -> (r: bool)
        ensures
            *final(self) == (InputContext { is_cursor_visible: false, ..*old(self) }),
            r == final(self).cursor_shown(),
            !r,
    {
        self.is_cursor_visible = false;
        self.show_hide_cursor()
    }

    pub fn set_playing_movie(&mut self, is_playing_movie: bool)
        ensures
            *final(self) == (InputContext { is_playing_movie, ..*old(self) }),
    {
        self.is_playing_movie = is_playing_movie;
    }

    /// Records whether the keyboard or a pad is in use: rumble is on only for a pad, and
    /// turning it off stops the first player's rumble. Returns that stop and whether the
    /// cursor is to be shown.
    pub fn set_using_keyboard(&mut self, using_keyboard: bool) -> (r: InputEffects)
        requires
            old(self).wf(),
            old(self).gamepad_manager.max_players() >= 1,
        ensures
            final(self).wf(),
            final(self).is_using_keyboard == using_keyboard,
            final(self).gamepad_manager.rumble_enabled() == !using_keyboard,
            r.rumble == (if using_keyboard && old(self).gamepad_manager.rumble_enabled() {
                match old(self).gamepad_manager.slots()[0] {
                    Some(idx) => Some(RumbleCommand { pad: idx, low: 0, high: 0 }),
                    None => None,
                }
            } else {
                None
            }),
            r.show_cursor == Some(final(self).cursor_shown()),
            final(self).gamepad_manager.slots() == old(self).gamepad_manager.slots(),
            final(self).gamepad_manager.ids() == old(self).gamepad_manager.ids(),
            final(self).gamepad_manager.player_count() == old(self).gamepad_manager.player_count(),
            final(self).gamepad_manager.max_players() == old(self).gamepad_manager.max_players(),
            final(self).gamepad_manager.buttons() == old(self).gamepad_manager.buttons(),
            final(self).gamepad_manager.sticks() == old(self).gamepad_manager.sticks(),
            final(self).keybind_manager == old(self).keybind_manager,
            final(self).keyboard == old(self).keyboard,
            final(self).park_editor_state == old(self).park_editor_state,
            final(self).is_cursor_visible == old(self).is_cursor_visible,
            final(self).network_menu_exit_debounce == old(self).network_menu_exit_debounce,
            final(self).is_playing_movie == old(self).is_playing_movie,
    {
        self.is_using_keyboard = using_keyboard;
        let rumble = self.gamepad_manager.enable_rumble(0, !using_keyboard);
        let show = self.show_hide_cursor();
        InputEffects { rumble, show_cursor: Some(show) }
    }

    /// Whether the player asks to skip a movie; see `spec_movie_break`.
    pub fn poll_movie_break_buttons(&mut self, keys: &[bool], pads: &Vec<PadInput>) -> (r: bool)
        requires
            old(self).wf(),
            old(self).gamepad_manager.can_poll(0, pads@),
        ensures
            final(self).wf(),
            (r, final(self).keybind_manager.key_bindings(), final(self).keybind_manager.menu_keys())
                == spec_movie_break(
                old(self).keybind_manager,
                old(self).gamepad_manager,
                keys@,
                pads@,
            ),
            final(self).keybind_manager.keys_bound() == old(self).keybind_manager.keys_bound(),
            final(self).keybind_manager.in_menu() == old(self).keybind_manager.in_menu(),
            final(self).gamepad_manager == old(self).gamepad_manager,
            final(self).keyboard == old(self).keyboard,
            final(self).is_using_keyboard == old(self).is_using_keyboard,
            final(self).is_cursor_visible == old(self).is_cursor_visible,
            final(self).network_menu_exit_debounce == old(self).network_menu_exit_debounce,
            final(self).is_playing_movie == old(self).is_playing_movie,
    {
        let g1 = self.gamepad_manager.poll_button_binding(0, "Ollie", pads).0;
        let g2 = self.gamepad_manager.poll_button_binding(0, "Pause", pads).0;
        let k1 = self.keybind_manager.poll_key_binding("Ollie", keys);
        let k2 = self.keybind_manager.poll_key_binding("Pause", keys);
        let m1 = self.keybind_manager.poll_menu_binding("Accept", keys);
        let m2 = self.keybind_manager.poll_menu_binding("Accept2", keys);
        let m3 = self.keybind_manager.poll_menu_binding("Back", keys);
        let space = is_pressed(keys, SCANCODE_SPACE);
        g1 || g2 || k1 || k2 || m1 || m2 || m3 || space
    }

    /// Binds the controls from the stored configuration: `key_codes` holds, for each
    /// keyboard action of `keybinds`, the stored scancode where it names a key;
    /// `pad_values` holds, for each gamepad action of `gamepad_binds`, the stored number.
    /// The menu keys are added over the action keys.
    pub fn setup_controls(&mut self, key_codes: &Vec<Option<u32>>, pad_values: &Vec<i32>)
        requires
            old(self).wf(),
            key_codes@.len() == 19,
            pad_values@.len() == 17,
        ensures
            final(self).wf(),
            (final(self).keybind_manager.key_bindings(), final(self).keybind_manager.keys_bound())
                == spec_bind_keys(
                old(self).keybind_manager.key_bindings(),
                old(self).keybind_manager.keys_bound(),
                key_codes@,
                19,
            ),
            final(self).keybind_manager.menu_keys() == spec_bind_menus(
                old(self).keybind_manager.menu_keys(),
                final(self).keybind_manager.keys_bound(),
            ),
            final(self).keybind_manager.in_menu() == old(self).keybind_manager.in_menu(),
            (final(self).gamepad_manager.buttons(), final(self).gamepad_manager.sticks())
                == spec_bind_pads(
                old(self).gamepad_manager.buttons(),
                old(self).gamepad_manager.sticks(),
                pad_values@,
                17,
            ),
            final(self).gamepad_manager.slots() == old(self).gamepad_manager.slots(),
            final(self).gamepad_manager.ids() == old(self).gamepad_manager.ids(),
            final(self).gamepad_manager.max_players() == old(self).gamepad_manager.max_players(),
            final(self).gamepad_manager.player_count() == old(self).gamepad_manager.player_count(),
            final(self).gamepad_manager.rumble_enabled() == old(self).gamepad_manager.rumble_enabled(),
    {
        let binds = keybinds();
        let pause = "Pause".to_owned();
        let mut i: usize = 0;
        while i < 19
            invariant
                0 <= i <= 19,
                binds@.len() == 19,
                key_codes@.len() == 19,
                forall|j: int|
                    0 <= j < 19 ==> (#[trigger] binds@[j]).key@ == spec_keybind(j).1,
                pause@ == "Pause"@,
                self.keybind_manager.wf(),
                (self.keybind_manager.key_bindings(), self.keybind_manager.keys_bound())
                    == spec_bind_keys(
                    old(self).keybind_manager.key_bindings(),
                    old(self).keybind_manager.keys_bound(),
                    key_codes@,
                    i as int,
                ),
                self.keybind_manager.menu_bindings() == old(self).keybind_manager.menu_bindings(),
                self.keybind_manager.in_menu() == old(self).keybind_manager.in_menu(),
                self.gamepad_manager == old(self).gamepad_manager,
            decreases 19 - i,
        {
            let bind = &binds[i];
            match key_codes[i] {
                Some(v) => {
                    let is_pause = bind.key.to_owned() == pause;
                    if !(v == SCANCODE_ESCAPE && is_pause) {
                        self.keybind_manager.add_key_binding(bind.key, v);
                    }
                },
                None => {},
            }
            i = i + 1;
        }
        self.keybind_manager.add_menu_binding("Accept", SCANCODE_RETURN, "Ollie");
        self.keybind_manager.add_menu_binding("Accept2", SCANCODE_KP_ENTER, "Ollie");
        self.keybind_manager.add_menu_binding("Back", SCANCODE_ESCAPE, "Grind");
        self.keybind_manager.add_menu_binding("Up", SCANCODE_UP, "Forward");
        self.keybind_manager.add_menu_binding("Down", SCANCODE_DOWN, "Backward");
        self.keybind_manager.add_menu_binding("Left", SCANCODE_LEFT, "Left");
        self.keybind_manager.add_menu_binding("Right", SCANCODE_RIGHT, "Right");
        let ghost km = self.keybind_manager;
        let pad_binds = gamepad_binds();
        let mut j: usize = 0;
        while j < 17
            invariant
                0 <= j <= 17,
                self.keybind_manager == km,
                pad_binds@.len() == 17,
                pad_values@.len() == 17,
                forall|k: int|
                    0 <= k < 17 ==> (#[trigger] pad_binds@[k]).key@ == spec_gamepad_bind(k).1
                        && pad_binds@[k].default == spec_gamepad_bind(k).2,
                self.gamepad_manager.wf(),
                (self.gamepad_manager.buttons(), self.gamepad_manager.sticks()) == spec_bind_pads(
                    old(self).gamepad_manager.buttons(),
                    old(self).gamepad_manager.sticks(),
                    pad_values@,
                    j as int,
                ),
                self.gamepad_manager.slots() == old(self).gamepad_manager.slots(),
                self.gamepad_manager.ids() == old(self).gamepad_manager.ids(),
                self.gamepad_manager.max_players() == old(self).gamepad_manager.max_players(),
                self.gamepad_manager.player_count() == old(self).gamepad_manager.player_count(),
                self.gamepad_manager.rumble_enabled() == old(self).gamepad_manager.rumble_enabled(),
            decreases 17 - j,
        {
            let bind = &pad_binds[j];
            match bind.default {
                BindType::Button { .. } => {
                    match Button::from_i32(pad_values[j]) {
                        Some(b) => self.gamepad_manager.add_button_binding(bind.key, b),
                        None => {},
                    }
                },
                BindType::Stick { .. } => {
                    match Stick::from_i32(pad_values[j]) {
                        Some(st) => self.gamepad_manager.add_stick_binding(bind.key, st),
                        None => {},
                    }
                },
            }
            j = j + 1;
        }
    }

    /// Handles an input event: it may tell what the player uses (see
    /// `spec_uses_keyboard`), a key press goes to the frame's presses, and a pad event to
    /// the gamepads. Returns the rumble to send and the cursor change.
    pub fn event_handler(&mut self, event: InputEvent) -> (r: InputEffects)
        requires
            old(self).wf(),
            old(self).gamepad_manager.max_players() >= 1,
            event matches InputEvent::ControllerDeviceRemoved { which } ==> (find_id(
                old(self).gamepad_manager.ids(),
                which,
            ) matches Some(i) ==> slot_count(old(self).gamepad_manager.slots(), i as usize) <= old(
                self,
            ).gamepad_manager.player_count()),
        ensures
            final(self).wf(),
            final(self).is_using_keyboard == match spec_uses_keyboard(old(self).is_playing_movie, event) {
                Some(u) => u,
                None => old(self).is_using_keyboard,
            },
            r.show_cursor == match spec_uses_keyboard(old(self).is_playing_movie, event) {
                Some(u) => Some(final(self).cursor_shown()),
                None => None,
            },
            final(self).keyboard.keys_down() == match event {
                InputEvent::KeyDown { scancode: Some(c), keycode } => match spec_key_code(c, keycode) {
                    Some(k) => old(self).keyboard.keys_down().push(k),
                    None => old(self).keyboard.keys_down(),
                },
                _ => old(self).keyboard.keys_down(),
            },
            exists|mid: GamepadManager, pad_rumble: Option<RumbleCommand>|
                {
                    &&& mid.wf()
                    &&& mid.slots() == old(self).gamepad_manager.slots()
                    &&& mid.ids() == old(self).gamepad_manager.ids()
                    &&& mid.player_count() == old(self).gamepad_manager.player_count()
                    &&& mid.max_players() == old(self).gamepad_manager.max_players()
                    &&& mid.buttons() == old(self).gamepad_manager.buttons()
                    &&& mid.sticks() == old(self).gamepad_manager.sticks()
                    &&& mid.rumble_enabled() == match spec_uses_keyboard(
                        old(self).is_playing_movie,
                        event,
                    ) {
                        Some(u) => !u,
                        None => old(self).gamepad_manager.rumble_enabled(),
                    }
                    &&& #[trigger] pad_event_effect(
                        mid,
                        final(self).gamepad_manager,
                        event,
                        pad_rumble,
                    )
                    &&& r.rumble == match spec_uses_keyboard(old(self).is_playing_movie, event) {
                        Some(u) => if u && old(self).gamepad_manager.rumble_enabled() {
                            match old(self).gamepad_manager.slots()[0] {
                                Some(idx) => Some(RumbleCommand { pad: idx, low: 0, high: 0 }),
                                None => pad_rumble,
                            }
                        } else {
                            pad_rumble
                        },
                        None => pad_rumble,
                    }
                },
            final(self).keybind_manager == old(self).keybind_manager,
            final(self).park_editor_state == old(self).park_editor_state,
            final(self).is_cursor_visible == old(self).is_cursor_visible,
            final(self).network_menu_exit_debounce == old(self).network_menu_exit_debounce,
            final(self).is_playing_movie == old(self).is_playing_movie,
    {
        let uses = match event {
            InputEvent::MouseMotion | InputEvent::MouseButtonDown | InputEvent::MouseButtonUp => {
                if self.is_playing_movie {
                    None
                } else {
                    Some(true)
                }
            },
            InputEvent::KeyDown { .. } => Some(true),
            InputEvent::ControllerButtonDown { .. } => Some(false),
            _ => None,
        };
        let mut effects = InputEffects { rumble: None, show_cursor: None };
        match uses {
            Some(u) => {
                effects = self.set_using_keyboard(u);
            },
            None => {},
        }
        self.keyboard.handle_keyboard_event(event);
        let ghost mid = self.gamepad_manager;
        let pad_rumble = self.gamepad_manager.event_handler(event);
        if effects.rumble.is_none() {
            effects.rumble = pad_rumble;
        }
        assert(pad_event_effect(mid, self.gamepad_manager, event, pad_rumble));
        effects
    }

    /// The bindings are well formed.
    pub open spec fn wf(self) -> bool {
        &&& self.keybind_manager.wf()
        &&& self.gamepad_manager.wf()
    }
}

} // verus!
