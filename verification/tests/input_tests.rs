use partymod::bindings::{gamepad_binds, keybinds, Button, Stick};
use partymod::device::{Device, InternalButton, RumbleRequest};
use partymod::gamepad::{GamepadManager, PadInput, RumbleCommand};
use partymod::input::{InputContext, InputEffects, InputEvent};
use partymod::keybinds::KeybindManager;
use partymod::keyboard::{Keyboard, KEY_ACCEPT, KEY_BACK};
use partymod::scancode::{
    SCANCODE_ESCAPE, SCANCODE_KP_2, SCANCODE_L, SCANCODE_RETURN, SCANCODE_SPACE, SCANCODE_UP,
    SCANCODE_W,
};

fn blank_device(slot: u32) -> Device {
    Device {
        vtable: 0,
        node: 0,
        ty: 0,
        port: 0,
        slot,
        is_valid: 0,
        unk1: 0,
        control_data: [0; 32],
        vibration_data_align: [0; 32],
        vibration_data_direct: [0; 32],
        vibration_data_max: [0; 32],
        vibration_data_old_direct: [0; 32],
        paused: 0,
        actuators_disabled: 0,
        capabilities: 0,
        unk2: 0,
        num_actuators: 0,
        unk3: 0,
        state: 0,
        next_state: 0,
        index: 0,
        is_plugged_in: 0,
        device_interface: 0,
        unk4: 0,
        unk5: 0,
    }
}

fn keys_with(held: &[u32]) -> Vec<bool> {
    let mut keys = vec![false; 512];
    for k in held {
        keys[*k as usize] = true;
    }
    keys
}

fn default_context() -> InputContext {
    let mut ctx = InputContext::new();
    let key_codes: Vec<Option<u32>> = keybinds().iter().map(|b| b.default).collect();
    let pad_values: Vec<i32> = gamepad_binds().iter().map(|b| b.default.to_i32()).collect();
    ctx.setup_controls(&key_codes, &pad_values);
    ctx
}

fn pad(buttons: &[usize], axes: [i16; 6]) -> PadInput {
    let mut b = vec![false; 26];
    for i in buttons {
        b[*i] = true;
    }
    PadInput { buttons: b, axes: axes.to_vec() }
}

#[test]
fn key_binding_polls_held_key() {
    let mut km = KeybindManager::new();
    km.add_key_binding("Ollie", SCANCODE_KP_2);
    assert!(km.poll_key_binding("Ollie", &keys_with(&[SCANCODE_KP_2])));
    assert!(!km.poll_key_binding("Ollie", &keys_with(&[])));
    assert!(!km.poll_key_binding("Grind", &keys_with(&[SCANCODE_KP_2])));
}

#[test]
fn menu_switch_locks_shared_key_until_release() {
    let mut km = KeybindManager::new();
    km.add_key_binding("Ollie", SCANCODE_RETURN);
    km.add_menu_binding("Accept", SCANCODE_RETURN, "Grind");
    let held = keys_with(&[SCANCODE_RETURN]);
    let released = keys_with(&[]);
    km.set_in_menu(true, &held);
    assert!(km.is_menu_key_locked("Accept"));
    assert!(!km.poll_key_binding("Ollie", &held));
    assert!(!km.poll_menu_binding("Accept", &held));
    assert!(!km.poll_key_binding("Ollie", &released));
    assert!(!km.poll_menu_binding("Accept", &released));
    assert!(!km.is_menu_key_locked("Accept"));
    assert!(km.poll_key_binding("Ollie", &held));
    assert!(km.poll_menu_binding("Accept", &held));
}

#[test]
fn menu_key_of_its_own_action_starts_locked() {
    let mut km = KeybindManager::new();
    km.add_key_binding("Ollie", SCANCODE_RETURN);
    km.add_menu_binding("Accept", SCANCODE_RETURN, "Ollie");
    assert!(km.is_menu_key_locked("Accept"));
    assert!(!km.is_menu_key_locked("Back"));
}

#[test]
fn locked_accept_hides_accept_key_press() {
    let mut km = KeybindManager::new();
    km.add_key_binding("Ollie", SCANCODE_RETURN);
    km.add_menu_binding("Accept", SCANCODE_RETURN, "Grind");
    km.set_in_menu(true, &keys_with(&[SCANCODE_RETURN]));
    let mut kb = Keyboard::new();
    kb.handle_key_down(SCANCODE_RETURN, 13);
    kb.push_key_down(b'a');
    kb.push_esc_down();
    assert_eq!(kb.update_keys_down(&km), vec![b'a', KEY_BACK]);
    assert_eq!(kb.update_keys_down(&km), Vec::<u8>::new());
    let km2 = KeybindManager::new();
    kb.handle_key_down(SCANCODE_RETURN, 13);
    assert_eq!(kb.update_keys_down(&km2), vec![KEY_ACCEPT]);
}

#[test]
fn process_reads_keyboard_actions() {
    let mut ctx = default_context();
    let mut dev = blank_device(0);
    let keys = keys_with(&[SCANCODE_KP_2, SCANCODE_W, SCANCODE_L]);
    dev.process(&mut ctx, &keys, &Vec::new(), false, false, false);
    assert_eq!(dev.capabilities, 3);
    assert_eq!(dev.num_actuators, 2);
    assert_eq!(dev.state, 2);
    assert_eq!(dev.control_data[1], 0x50);
    assert_eq!(dev.control_data[2], !0x10u8);
    assert_eq!(dev.control_data[3], !0x40u8);
    assert_eq!(dev.control_data[4], 255);
    assert_eq!(dev.control_data[5], 127);
    assert_eq!(dev.control_data[6], 127);
    assert_eq!(dev.control_data[10], 0xFF);
    assert_eq!(dev.control_data[14], 0xFF);
    assert_eq!(dev.vibration_data_max[0], 255);
}

#[test]
fn process_ignores_keyboard_for_second_controller() {
    let mut ctx = default_context();
    let mut dev = blank_device(1);
    let keys = keys_with(&[SCANCODE_KP_2]);
    dev.process(&mut ctx, &keys, &Vec::new(), false, false, false);
    assert_eq!(dev.control_data[3], 0xFF);
    assert_eq!(dev.control_data[14], 0);
}

#[test]
fn process_menu_keys_press_dpad() {
    let mut ctx = default_context();
    let mut dev = blank_device(0);
    let keys = keys_with(&[SCANCODE_UP]);
    dev.process(&mut ctx, &keys, &Vec::new(), false, false, true);
    assert_eq!(dev.control_data[2], !0x10u8);
    assert_eq!(dev.control_data[10], 0xFF);
    // outside a menu the arrow keys are not bound
    let mut dev2 = blank_device(0);
    dev2.process(&mut ctx, &keys, &Vec::new(), false, false, false);
    assert_eq!(dev2.control_data[2], 0xFF);
}

#[test]
fn process_skips_keyboard_when_on_screen_keyboard_is_up() {
    let mut ctx = default_context();
    let mut dev = blank_device(0);
    dev.process(&mut ctx, &keys_with(&[SCANCODE_KP_2]), &Vec::new(), false, true, false);
    assert_eq!(dev.control_data[3], 0xFF);
}

#[test]
fn process_reads_gamepad() {
    let mut ctx = default_context();
    ctx.gamepad_manager.add_controller(3);
    let mut dev = blank_device(0);
    let pads = vec![pad(&[1], [32767, 0, 0, 0, 0, 0])];
    dev.process(&mut ctx, &keys_with(&[]), &pads, false, false, false);
    // B is grab: circle, with the pressure's low byte shifted up
    assert_eq!(dev.control_data[3], !0x20u8);
    assert_eq!(dev.control_data[13], 128);
    // the left stick moves
    assert_eq!(dev.control_data[6], 255);
    assert_eq!(dev.control_data[7], 128);
    assert_eq!(dev.control_data[4], 127);
}

#[test]
fn network_menu_exit_sends_escape_once() {
    let mut ctx = default_context();
    ctx.gamepad_manager.add_controller(3);
    let mut dev = blank_device(0);
    let pads = vec![pad(&[3], [0; 6])];
    dev.process(&mut ctx, &keys_with(&[]), &pads, true, false, false);
    assert!(ctx.network_menu_exit_debounce);
    assert_eq!(ctx.keyboard.update_keys_down(&ctx.keybind_manager), vec![KEY_BACK]);
    dev.process(&mut ctx, &keys_with(&[]), &pads, true, false, false);
    assert_eq!(ctx.keyboard.update_keys_down(&ctx.keybind_manager), Vec::<u8>::new());
    // back in the game, the held grind reads as released until let go
    dev.process(&mut ctx, &keys_with(&[]), &pads, false, false, false);
    assert!(ctx.network_menu_exit_debounce);
    assert_eq!(dev.control_data[3] & 0x10, 0x10);
    let released = vec![pad(&[], [0; 6])];
    dev.process(&mut ctx, &keys_with(&[]), &released, false, false, false);
    assert!(!ctx.network_menu_exit_debounce);
}

#[test]
fn gamepad_polls_buttons_and_triggers() {
    let mut gm = GamepadManager::new(1);
    gm.add_controller(7);
    gm.add_button_binding("Ollie", Button::A);
    gm.add_button_binding("Switch", Button::RightTrigger);
    gm.add_stick_binding("CameraStick", Stick::Right);
    let pads = vec![pad(&[0], [0, 0, 100, -200, 0, 20000])];
    assert_eq!(gm.poll_button_binding(0, "Ollie", &pads), (true, i16::MAX));
    assert_eq!(gm.poll_button_binding(0, "Switch", &pads), (true, 20000));
    assert_eq!(gm.poll_button_binding(0, "Grind", &pads), (false, 0));
    assert_eq!(gm.poll_stick_binding(0, "CameraStick", &pads), (100, -200));
    let weak = vec![pad(&[], [0, 0, 0, 0, 0, 10000])];
    assert_eq!(gm.poll_button_binding(0, "Switch", &weak), (false, 10000));
}

#[test]
fn gamepad_players_join_and_leave() {
    let mut gm = GamepadManager::new(2);
    gm.add_controller(10);
    gm.add_controller(11);
    assert_eq!(gm.handle_button_down(11), None);
    gm.add_button_binding("Ollie", Button::A);
    let pads = vec![pad(&[0], [0; 6]), pad(&[], [0; 6])];
    // pad 1 is the first player, pad 0 nobody's yet
    assert_eq!(gm.poll_button_binding(0, "Ollie", &pads).0, false);
    assert_eq!(gm.set_rumble(0, 5, 6), Some(RumbleCommand { pad: 1, low: 6, high: 5 }));
    assert_eq!(gm.set_rumble(1, 5, 6), None);
    assert_eq!(gm.remove_controller(99), None);
}

#[test]
fn single_player_switches_active_pad() {
    let mut gm = GamepadManager::new(1);
    gm.add_controller(10);
    gm.add_controller(11);
    assert_eq!(gm.handle_button_down(10), None);
    assert_eq!(gm.set_rumble(0, 1, 2), Some(RumbleCommand { pad: 0, low: 2, high: 1 }));
    // switching stops the rumble of the pad that was active
    assert_eq!(gm.handle_button_down(11), Some(RumbleCommand { pad: 0, low: 0, high: 0 }));
    assert_eq!(gm.enable_rumble(0, false), Some(RumbleCommand { pad: 1, low: 0, high: 0 }));
    assert_eq!(gm.set_rumble(0, 1, 2), None);
}

#[test]
fn events_switch_between_keyboard_and_pad() {
    let mut ctx = default_context();
    let e = ctx.event_handler(InputEvent::ControllerDeviceAdded { which: 3, opened: true });
    assert_eq!(e, InputEffects { rumble: None, show_cursor: None });
    let e = ctx.event_handler(InputEvent::ControllerButtonDown { which: 3 });
    assert_eq!(e, InputEffects { rumble: None, show_cursor: Some(false) });
    assert!(!ctx.is_using_keyboard);
    let e = ctx.event_handler(InputEvent::KeyDown { scancode: Some(4), keycode: 97 });
    assert_eq!(
        e,
        InputEffects { rumble: Some(RumbleCommand { pad: 0, low: 0, high: 0 }), show_cursor: Some(true) }
    );
    assert!(ctx.is_using_keyboard);
    assert_eq!(ctx.keyboard.update_keys_down(&ctx.keybind_manager), vec![97]);
    // an added pad that could not be opened is not recorded
    ctx.event_handler(InputEvent::ControllerDeviceAdded { which: 4, opened: false });
    let e = ctx.event_handler(InputEvent::ControllerButtonDown { which: 4 });
    assert_eq!(e, InputEffects { rumble: None, show_cursor: Some(false) });
}

#[test]
fn mouse_is_ignored_during_movies() {
    let mut ctx = default_context();
    ctx.set_using_keyboard(false);
    ctx.set_playing_movie(true);
    let e = ctx.event_handler(InputEvent::MouseMotion);
    assert_eq!(e.show_cursor, None);
    assert!(!ctx.is_using_keyboard);
    ctx.set_playing_movie(false);
    let e = ctx.event_handler(InputEvent::MouseButtonDown);
    assert_eq!(e.show_cursor, Some(true));
    assert!(ctx.is_using_keyboard);
}

#[test]
fn cursor_follows_game_and_input() {
    let mut ctx = InputContext::new();
    assert!(!ctx.set_cursor_inactive());
    assert!(ctx.set_cursor_active());
    let e = ctx.set_using_keyboard(false);
    assert_eq!(e.show_cursor, Some(false));
    assert!(!ctx.set_cursor_active());
}

#[test]
fn movie_break_on_space_or_accept() {
    let mut ctx = default_context();
    assert!(!ctx.poll_movie_break_buttons(&keys_with(&[]), &Vec::new()));
    assert!(ctx.poll_movie_break_buttons(&keys_with(&[SCANCODE_SPACE]), &Vec::new()));
    assert!(ctx.poll_movie_break_buttons(&keys_with(&[SCANCODE_RETURN]), &Vec::new()));
    assert!(ctx.poll_movie_break_buttons(&keys_with(&[SCANCODE_KP_2]), &Vec::new()));
    ctx.gamepad_manager.add_controller(1);
    assert!(ctx.poll_movie_break_buttons(&keys_with(&[]), &vec![pad(&[6], [0; 6])]));
}

#[test]
fn escape_is_never_bound_to_pause() {
    let mut ctx = InputContext::new();
    let mut key_codes: Vec<Option<u32>> = keybinds().iter().map(|b| b.default).collect();
    key_codes[8] = Some(SCANCODE_ESCAPE);
    key_codes[17] = Some(SCANCODE_ESCAPE);
    let pad_values = vec![-1; 17];
    ctx.setup_controls(&key_codes, &pad_values);
    let keys = keys_with(&[SCANCODE_ESCAPE]);
    assert!(!ctx.keybind_manager.poll_key_binding("Pause", &keys));
    assert!(ctx.keybind_manager.poll_key_binding("ViewToggle", &keys));
    // escape is also the menu's back key, overlaying view toggle
    assert!(!ctx.keybind_manager.is_menu_key_locked("Back"));
    let pads = vec![];
    assert_eq!(ctx.gamepad_manager.poll_button_binding(0, "Ollie", &pads), (false, 0));
}

#[test]
fn internal_button_sets_bit_and_pressure() {
    let mut dev = blank_device(0);
    dev.update_internal_button(InternalButton::Square, true, 40);
    dev.update_internal_button(InternalButton::Square, true, 20);
    assert_eq!(dev.control_data[3], 0x80);
    assert_eq!(dev.control_data[15], 40);
    dev.update_internal_button(InternalButton::Start, true, 0);
    assert_eq!(dev.control_data[2], 0x08);
    assert_eq!(Device::axis_abs(0), 127);
    assert_eq!(Device::axis_abs(255), 127);
    assert_eq!(Device::axis_abs(128), 0);
    assert_eq!(Device::stick_max(127, 127, 0, 200), (0, 200));
    assert_eq!(Device::stick_max(0, 127, 255, 127), (0, 127));
    assert_eq!(Device::keys_to_axis(true, true), 127);
    assert_eq!(Device::keys_to_axis(true, false), 255);
    assert_eq!(Device::keys_to_axis(false, true), 0);
    assert_eq!(Device::stick_axis_byte(-32768), 0);
    assert_eq!(Device::stick_axis_byte(-1), 127);
    assert_eq!(Device::stick_axis_byte(256), 129);
}

#[test]
fn pause_and_unpause_restore_rumble() {
    let mut dev = blank_device(2);
    dev.state = 2;
    dev.capabilities = 3;
    dev.num_actuators = 2;
    dev.vibration_data_direct[0] = 100;
    dev.vibration_data_direct[1] = 50;
    assert_eq!(dev.pause(), Some(RumbleRequest { player: 2, high: 0, low: 0 }));
    assert_eq!(dev.pause(), None);
    assert_eq!(dev.unpause(), None);
    assert_eq!(dev.unpause(), Some(RumbleRequest { player: 2, high: 100 << 8, low: 50 << 8 }));
    assert_eq!(dev.vibration_data_direct[0], 100);
    assert_eq!(dev.vibration_data_direct[1], 50);
    assert_eq!(dev.unpause(), None);
    assert_eq!(dev.paused, 0);
}

#[test]
fn actuators_respect_disable() {
    let mut dev = blank_device(0);
    dev.state = 2;
    dev.capabilities = 3;
    dev.num_actuators = 2;
    assert_eq!(dev.activate_actuator(1, 30), Some(RumbleRequest { player: 0, high: 0, low: 30 << 8 }));
    assert_eq!(dev.activate_actuator(2, 30), None);
    assert_eq!(dev.disable_actuators(), Some(RumbleRequest { player: 0, high: 0, low: 0 }));
    assert_eq!(dev.activate_actuator(0, 30), None);
    assert_eq!(dev.disable_actuators(), None);
    dev.enable_actuators();
    assert_eq!(dev.activate_actuator(0, 30), Some(RumbleRequest { player: 0, high: 30 << 8, low: 0 }));
    assert_eq!(dev.reset_actuators(), Some(RumbleRequest { player: 0, high: 0, low: 0 }));
    assert_eq!(dev.actuators_disabled, 0);
}

#[test]
fn internal_button_order_and_repeat_do_not_matter() {
    let mut a = blank_device(0);
    a.update_internal_button(InternalButton::Cross, true, 90);
    a.update_internal_button(InternalButton::L2, true, 30);
    let mut b = blank_device(0);
    b.update_internal_button(InternalButton::L2, true, 30);
    b.update_internal_button(InternalButton::Cross, true, 90);
    b.update_internal_button(InternalButton::Cross, true, 90);
    assert_eq!(a.control_data, b.control_data);
    assert_eq!(a.control_data[3], 0x41);
    assert_eq!(a.control_data[14], 90);
    assert_eq!(a.control_data[18], 30);
}

#[test]
fn no_players_ignores_button_presses() {
    let mut gm = GamepadManager::new(0);
    gm.add_controller(10);
    assert_eq!(gm.handle_button_down(10), None);
    assert_eq!(
        gm.event_handler(InputEvent::ControllerButtonDown { which: 10 }),
        None
    );
}
