use partymod::bindings::{gamepad_binds, keybinds, BindType, Button, Stick};
use partymod::partyconfig::{
    button_option, button_option_index, button_option_labels, stick_option, stick_option_index,
    stick_option_labels, AppState, DisplayMode, GamepadState, GeneralState, GraphicsSettings,
    KeyBindEvent, KeyboardState, ResolutionInfo,
};
use partymod::scancode::{SCANCODE_GRAVE, SCANCODE_KP_2};

fn mode(width: u32, height: u32) -> DisplayMode {
    DisplayMode { width, height }
}

#[test]
fn button_from_i32_covers_stored_range() {
    assert_eq!(Button::from_i32(0), Some(Button::A));
    assert_eq!(Button::from_i32(22), Some(Button::LeftTrigger));
    assert_eq!(Button::from_i32(26), Some(Button::Misc5));
    assert_eq!(Button::from_i32(27), None);
    assert_eq!(Button::from_i32(-1), None);
    assert_eq!(Stick::from_i32(1), Some(Stick::Right));
    assert_eq!(Stick::from_i32(2), None);
    assert_eq!(Button::RightTrigger.to_i32(), 21);
    assert_eq!(Stick::Left.to_i32(), 0);
}

#[test]
fn binding_tables_hold_defaults() {
    let pads = gamepad_binds();
    assert_eq!(pads.len(), 17);
    assert_eq!(pads[0].key, "Ollie");
    assert_eq!(pads[13].default, BindType::Stick { value: Some(Stick::Left) });
    assert_eq!(pads[16].default.to_i32(), 8);
    let keys = keybinds();
    assert_eq!(keys.len(), 19);
    assert_eq!(keys[0].default, Some(SCANCODE_KP_2));
    assert_eq!(keys[8].default_code(), -1);
    assert_eq!(keys[17].default_code(), SCANCODE_GRAVE as i32);
}

#[test]
fn display_mode_labels() {
    assert_eq!(mode(1920, 1080).label(), "1920x1080");
    assert_eq!(mode(640, 480).label(), "640x480");
    assert_eq!(mode(0, 0).label(), "Default Desktop Resolution");
    assert_eq!(mode(7, 0).label(), "7x0");
    assert!(mode(1024, 768).precedes(&mode(800, 1000)));
    assert!(mode(800, 600).precedes(&mode(1024, 600)));
    assert!(!mode(800, 600).precedes(&mode(800, 600)));
}

#[test]
fn resolution_list_is_sorted_and_distinct() {
    let modes = vec![mode(1920, 1080), mode(800, 600), mode(1280, 720), mode(800, 600), mode(1024, 768)];
    let info = ResolutionInfo::from_modes(&modes);
    assert_eq!(
        info.get_display_option_list(),
        vec![
            "Default Desktop Resolution".to_string(),
            "800x600".to_string(),
            "1280x720".to_string(),
            "1024x768".to_string(),
            "1920x1080".to_string(),
        ]
    );
    assert_eq!(info.mode_at(2), mode(1280, 720));
    let empty = ResolutionInfo::from_modes(&vec![]);
    assert_eq!(empty.get_display_option_list(), vec!["Default Desktop Resolution".to_string()]);
}

#[test]
fn button_options_round_trip() {
    for i in 0..22u32 {
        assert_eq!(button_option_index(button_option(i)), i);
    }
    for i in 0..3u32 {
        assert_eq!(stick_option_index(stick_option(i)), i);
    }
    assert_eq!(button_option(11), Some(Button::LeftTrigger));
    assert_eq!(button_option_index(Some(Button::Home)), 0);
    assert_eq!(button_option_index(Some(Button::Misc3)), 0);
    assert_eq!(button_option_labels()[11], "LR/L2");
    assert_eq!(button_option_labels().len(), 22);
    assert_eq!(stick_option_labels(), vec!["Unbound", "Left Stick", "Right Stick"]);
}

#[test]
fn gamepad_state_loads_and_saves() {
    let defaults: Vec<i32> = gamepad_binds().iter().map(|b| b.default.to_i32()).collect();
    let state = GamepadState::new(&defaults);
    assert_eq!(state.save(), defaults);
    assert_eq!(GamepadState::default().save(), defaults);
    let mut values = defaults.clone();
    values[0] = -1;
    values[1] = 99;
    values[13] = 1;
    values[14] = 5;
    let state = GamepadState::new(&values);
    assert_eq!(state.bind(0), BindType::Button { value: None });
    assert_eq!(state.bind(1), BindType::Button { value: None });
    assert_eq!(state.bind(13), BindType::Stick { value: Some(Stick::Right) });
    assert_eq!(state.bind(14), BindType::Stick { value: None });
    let saved = state.save();
    assert_eq!(saved[1], -1);
    assert_eq!(saved[13], 1);
}

#[test]
fn gamepad_state_selection() {
    let mut state = GamepadState::default();
    assert_eq!(state.selected_option(0), 1);
    assert_eq!(state.selected_option(14), 2);
    state.select_option(0, 5);
    assert_eq!(state.bind(0), BindType::Button { value: Some(Button::DPadUp) });
    assert_eq!(state.selected_option(0), 5);
    state.select_option(14, 0);
    assert_eq!(state.bind(14), BindType::Stick { value: None });
    assert_eq!(state.selected_option(14), 0);
}

#[test]
fn keyboard_state_binds_pressed_key() {
    let codes: Vec<Option<u32>> = keybinds().iter().map(|b| b.default).collect();
    let mut state = KeyboardState::new(&codes);
    assert_eq!(state.save()[8], -1);
    assert_eq!(state.save()[0], SCANCODE_KP_2 as i32);
    state.start_key_bind(8);
    assert_eq!(state.is_setting_key(), Some(8));
    assert!(!state.key_bind_event(KeyBindEvent::Other));
    assert_eq!(state.is_setting_key(), Some(8));
    assert!(state.key_bind_event(KeyBindEvent::KeyDown { scancode: Some(44) }));
    assert_eq!(state.key_bind(8), Some(44));
    assert_eq!(state.is_setting_key(), None);
    state.start_key_bind(0);
    assert!(state.key_bind_event(KeyBindEvent::WindowFocusLost));
    assert_eq!(state.key_bind(0), Some(SCANCODE_KP_2));
    assert_eq!(KeyboardState::default().save(), state.save().iter().enumerate().map(|(i, v)| if i == 8 { -1 } else { *v }).collect::<Vec<i32>>());
}

#[test]
fn app_state_saves_graphics_settings() {
    let modes = vec![mode(1280, 720), mode(800, 600)];
    let pads: Vec<i32> = vec![-1; 17];
    let keys: Vec<Option<u32>> = vec![None; 19];
    let mut app = AppState::new(&modes, &pads, &keys);
    assert!(!app.should_quit);
    assert_eq!(
        app.save_settings(),
        GraphicsSettings { windowed: true, borderless: false, resolution_x: 0, resolution_y: 0 }
    );
    app.general_state.resolution = 2;
    app.general_state.borderless = true;
    assert_eq!(
        app.save_settings(),
        GraphicsSettings { windowed: true, borderless: true, resolution_x: 1280, resolution_y: 720 }
    );
    app.quit();
    assert!(app.should_quit);
}

#[test]
fn general_state_defaults() {
    let g = GeneralState::new();
    assert_eq!(g, GeneralState { resolution: 0, using_custom_resolution: false, windowed: true, borderless: false });
}
