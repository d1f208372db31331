use heavy::input::{
    ButtonState, GamepadAxis, GamepadButton, InputBinding, InputEffect, InputState, KeyCode,
    MouseButton, PointBits, ONE_BITS,
};
use heavy::input::float_bits_equal;
use heavy::keyboard::EngineKeyboardState;

#[derive(Hash, Eq, PartialEq, Copy, Clone, Debug)]
enum Buttons {
    A,
    B,
    Select,
    Start,
}

#[derive(Hash, Eq, PartialEq, Copy, Clone, Debug)]
enum Axes {
    Horz,
    Vert,
}

fn bits(x: f32) -> u32 {
    x.to_bits()
}

fn make_input_binding() -> InputBinding<Axes, Buttons> {
    InputBinding::<Axes, Buttons>::new()
        .bind_key_to_button(KeyCode::Z, Buttons::A)
        .bind_key_to_button(KeyCode::X, Buttons::B)
        .bind_key_to_button(KeyCode::Enter, Buttons::Start)
        .bind_key_to_button(KeyCode::RightShift, Buttons::Select)
        .bind_key_to_button(KeyCode::LeftShift, Buttons::Select)
        .bind_key_to_axis(KeyCode::Up, Axes::Vert, bits(1.))
        .bind_key_to_axis(KeyCode::Down, Axes::Vert, bits(-1.))
        .bind_key_to_axis(KeyCode::Left, Axes::Horz, bits(-1.))
        .bind_key_to_axis(KeyCode::Right, Axes::Horz, bits(1.))
}

#[test]
fn test_input_bindings() {
    let ib = make_input_binding();
    assert_eq!(
        ib.resolve_keycode(KeyCode::Z),
        Some(InputEffect::Button(Buttons::A, None))
    );
    assert_eq!(
        ib.resolve_keycode(KeyCode::X),
        Some(InputEffect::Button(Buttons::B, None))
    );
    assert_eq!(
        ib.resolve_keycode(KeyCode::Enter),
        Some(InputEffect::Button(Buttons::Start, None))
    );
    assert_eq!(
        ib.resolve_keycode(KeyCode::RightShift),
        Some(InputEffect::Button(Buttons::Select, None))
    );
    assert_eq!(
        ib.resolve_keycode(KeyCode::LeftShift),
        Some(InputEffect::Button(Buttons::Select, None))
    );

    assert_eq!(
        ib.resolve_keycode(KeyCode::Up),
        Some(InputEffect::Axis(Axes::Vert, bits(1.)))
    );
    assert_eq!(
        ib.resolve_keycode(KeyCode::Down),
        Some(InputEffect::Axis(Axes::Vert, bits(-1.)))
    );
    assert_eq!(
        ib.resolve_keycode(KeyCode::Left),
        Some(InputEffect::Axis(Axes::Horz, bits(-1.)))
    );
    assert_eq!(
        ib.resolve_keycode(KeyCode::Right),
        Some(InputEffect::Axis(Axes::Horz, bits(1.)))
    );

    assert_eq!(ib.resolve_keycode(KeyCode::Q), None);
    assert_eq!(ib.resolve_keycode(KeyCode::W), None);
}

#[test]
fn test_button_edge_transitions() {
    let mut im: InputState<Buttons> = InputState::new();

    // Push a key, confirm it's transitioned.
    assert!(!im.get_button_down(Buttons::A));
    im.update_button_down(Buttons::A);
    assert!(im.get_button_down(Buttons::A));
    assert!(im.get_button_pressed(Buttons::A));
    assert!(!im.get_button_released(Buttons::A));

    // Update, confirm it's still down but
    // wasn't pressed this frame
    im.update();
    assert!(im.get_button_down(Buttons::A));
    assert!(!im.get_button_pressed(Buttons::A));
    assert!(!im.get_button_released(Buttons::A));

    // Release it
    im.update_button_up(Buttons::A);
    assert!(im.get_button_up(Buttons::A));
    assert!(!im.get_button_pressed(Buttons::A));
    assert!(im.get_button_released(Buttons::A));
    im.update();
    assert!(im.get_button_up(Buttons::A));
    assert!(!im.get_button_pressed(Buttons::A));
    assert!(!im.get_button_released(Buttons::A));
}

#[test]
fn rebinding_a_key_replaces_its_binding() {
    let ib = InputBinding::<Axes, Buttons>::new()
        .bind_key_to_button(KeyCode::Z, Buttons::A)
        .bind_key_to_button(KeyCode::Z, Buttons::B);
    assert_eq!(
        ib.resolve_keycode(KeyCode::Z),
        Some(InputEffect::Button(Buttons::B, None))
    );
    let ib = ib.bind_key_to_axis(KeyCode::Z, Axes::Horz, bits(0.5));
    assert_eq!(
        ib.resolve_keycode(KeyCode::Z),
        Some(InputEffect::Axis(Axes::Horz, bits(0.5)))
    );
}

#[test]
fn gamepad_and_mouse_bindings_resolve() {
    let ib = InputBinding::<Axes, Buttons>::default()
        .bind_gamepad_button_to_button(GamepadButton::South, Buttons::A)
        .bind_gamepad_axis_to_axis(GamepadAxis::LeftStickX, Axes::Horz)
        .bind_mouse_to_button(MouseButton::Left, Buttons::B);
    assert_eq!(
        ib.resolve_gamepad_button(GamepadButton::South),
        Some(InputEffect::Button(Buttons::A, None))
    );
    assert_eq!(ib.resolve_gamepad_button(GamepadButton::North), None);
    assert_eq!(ONE_BITS, bits(1.0));
    assert_eq!(
        ib.resolve(heavy::input::InputType::GamepadAxis(GamepadAxis::LeftStickX)),
        Some(InputEffect::Axis(Axes::Horz, bits(1.0)))
    );
    let point = PointBits { x: bits(3.5), y: bits(-2.0) };
    assert_eq!(
        ib.resolve_mouse_button(MouseButton::Left, point),
        Some(InputEffect::Button(Buttons::B, Some(point)))
    );
    assert_eq!(ib.resolve_mouse_button(MouseButton::Right, point), None);
    // A key is a different physical input from a gamepad button.
    assert_eq!(ib.resolve_keycode(KeyCode::Space), None);
}

#[test]
fn with_mouse_position_only_changes_button_effects() {
    let point = PointBits { x: 1, y: 2 };
    let button: InputEffect<Axes, Buttons> = InputEffect::Button(Buttons::A, None);
    assert_eq!(
        button.with_mouse_position(point),
        InputEffect::Button(Buttons::A, Some(point))
    );
    let axis: InputEffect<Axes, Buttons> = InputEffect::Axis(Axes::Vert, 7);
    assert_eq!(axis.with_mouse_position(point), axis);
    let cursor: InputEffect<Axes, Buttons> = InputEffect::Cursor(PointBits { x: 9, y: 9 });
    assert_eq!(cursor.with_mouse_position(point), cursor);
}

#[test]
fn button_event_location_is_kept() {
    let mut im: InputState<Buttons> = InputState::default();
    let point = PointBits { x: bits(10.0), y: bits(20.0) };
    assert_eq!(im.get_button_event_location(Buttons::A), None);
    im.update_button(Buttons::A, Some(point), true);
    assert_eq!(im.get_button_event_location(Buttons::A), Some(point));
    assert!(im.get_button_down(Buttons::A));
    im.update_button_up(Buttons::A);
    assert_eq!(im.get_button_event_location(Buttons::A), None);
}

#[test]
fn reset_releases_every_button() {
    let mut im: InputState<Buttons> = InputState::new();
    im.update_button_down(Buttons::A);
    im.update_button_down(Buttons::Start);
    im.update();
    im.update_button_down(Buttons::Select);
    im.reset_input_state();
    for b in [Buttons::A, Buttons::B, Buttons::Select, Buttons::Start] {
        assert!(im.get_button_up(b));
        assert!(!im.get_button_pressed(b));
        assert!(!im.get_button_released(b));
    }
}

#[test]
fn buttons_are_independent() {
    let mut im: InputState<Buttons> = InputState::new();
    im.update_button_down(Buttons::A);
    assert!(im.get_button_down(Buttons::A));
    assert!(im.get_button_up(Buttons::B));
    im.update_button_down(Buttons::B);
    im.update_button_up(Buttons::A);
    assert!(im.get_button_released(Buttons::A) == false);
    assert!(im.get_button_down(Buttons::B));
    assert!(im.get_button_pressed(Buttons::B));
}

#[test]
fn default_button_state_is_unpressed() {
    let s = ButtonState::default();
    assert!(!s.pressed);
    assert!(!s.pressed_last_frame);
    assert_eq!(s.event_location, None);
}

#[test]
fn keyboard_state_tracks_keys() {
    let mut kb = EngineKeyboardState::default();
    assert!(!kb.is_key_down(KeyCode::A));
    kb.set_key_state(KeyCode::A, true, false);
    assert!(kb.is_key_down(KeyCode::A));
    assert!(!kb.is_key_down(KeyCode::B));
    // With key repeat disabled, a repeat event does not change whether the key is held.
    kb.set_key_state(KeyCode::A, false, true);
    assert!(kb.is_key_down(KeyCode::A));
    kb.set_key_state(KeyCode::A, false, false);
    assert!(!kb.is_key_down(KeyCode::A));
    kb.set_key_state(KeyCode::LeftShift, true, false);
    assert_eq!(kb.is_named_key_down("leftshift"), Ok(true));
    assert_eq!(kb.is_named_key_down("a"), Ok(false));
    assert!(kb.is_named_key_down("shift").is_err());
}

#[test]
fn key_codes_parse_from_names_without_regard_to_case() {
    assert_eq!(KeyCode::from_name("Space"), Some(KeyCode::Space));
    assert_eq!(KeyCode::from_name("space"), Some(KeyCode::Space));
    assert_eq!(KeyCode::from_name("LEFTSHIFT"), Some(KeyCode::LeftShift));
    assert_eq!(KeyCode::from_name("f12"), Some(KeyCode::F12));
    assert_eq!(KeyCode::from_name("kp0"), Some(KeyCode::Kp0));
    assert_eq!(KeyCode::from_name("Unknown"), Some(KeyCode::Unknown));
    assert_eq!(KeyCode::from_name("NoSuchKey"), None);
    assert_eq!(KeyCode::from_name(""), None);
    assert_eq!(KeyCode::from_name("Spacé"), None);
    assert_eq!("escape".parse::<KeyCode>(), Ok(KeyCode::Escape));
    assert!("escape key".parse::<KeyCode>().is_err());
}

#[test]
fn key_code_names_round_trip() {
    for key in [
        KeyCode::Apostrophe,
        KeyCode::Key7,
        KeyCode::Z,
        KeyCode::GraveAccent,
        KeyCode::PageDown,
        KeyCode::F25,
        KeyCode::KpEqual,
        KeyCode::RightSuper,
        KeyCode::Menu,
    ] {
        assert_eq!(KeyCode::from_name(key.name()), Some(key));
    }
    assert_eq!(KeyCode::Backslash.name(), "Backslash");
}

#[test]
fn every_key_code_name_round_trips() {
    let keys = [
        KeyCode::Space,
        KeyCode::Apostrophe,
        KeyCode::Comma,
        KeyCode::Minus,
        KeyCode::Period,
        KeyCode::Slash,
        KeyCode::Key0,
        KeyCode::Key1,
        KeyCode::Key2,
        KeyCode::Key3,
        KeyCode::Key4,
        KeyCode::Key5,
        KeyCode::Key6,
        KeyCode::Key7,
        KeyCode::Key8,
        KeyCode::Key9,
        KeyCode::Semicolon,
        KeyCode::Equal,
        KeyCode::A,
        KeyCode::B,
        KeyCode::C,
        KeyCode::D,
        KeyCode::E,
        KeyCode::F,
        KeyCode::G,
        KeyCode::H,
        KeyCode::I,
        KeyCode::J,
        KeyCode::K,
        KeyCode::L,
        KeyCode::M,
        KeyCode::N,
        KeyCode::O,
        KeyCode::P,
        KeyCode::Q,
        KeyCode::R,
        KeyCode::S,
        KeyCode::T,
        KeyCode::U,
        KeyCode::V,
        KeyCode::W,
        KeyCode::X,
        KeyCode::Y,
        KeyCode::Z,
        KeyCode::LeftBracket,
        KeyCode::Backslash,
        KeyCode::RightBracket,
        KeyCode::GraveAccent,
        KeyCode::World1,
        KeyCode::World2,
        KeyCode::Escape,
        KeyCode::Enter,
        KeyCode::Tab,
        KeyCode::Backspace,
        KeyCode::Insert,
        KeyCode::Delete,
        KeyCode::Right,
        KeyCode::Left,
        KeyCode::Down,
        KeyCode::Up,
        KeyCode::PageUp,
        KeyCode::PageDown,
        KeyCode::Home,
        KeyCode::End,
        KeyCode::CapsLock,
        KeyCode::ScrollLock,
        KeyCode::NumLock,
        KeyCode::PrintScreen,
        KeyCode::Pause,
        KeyCode::F1,
        KeyCode::F2,
        KeyCode::F3,
        KeyCode::F4,
        KeyCode::F5,
        KeyCode::F6,
        KeyCode::F7,
        KeyCode::F8,
        KeyCode::F9,
        KeyCode::F10,
        KeyCode::F11,
        KeyCode::F12,
        KeyCode::F13,
        KeyCode::F14,
        KeyCode::F15,
        KeyCode::F16,
        KeyCode::F17,
        KeyCode::F18,
        KeyCode::F19,
        KeyCode::F20,
        KeyCode::F21,
        KeyCode::F22,
        KeyCode::F23,
        KeyCode::F24,
        KeyCode::F25,
        KeyCode::Kp0,
        KeyCode::Kp1,
        KeyCode::Kp2,
        KeyCode::Kp3,
        KeyCode::Kp4,
        KeyCode::Kp5,
        KeyCode::Kp6,
        KeyCode::Kp7,
        KeyCode::Kp8,
        KeyCode::Kp9,
        KeyCode::KpDecimal,
        KeyCode::KpDivide,
        KeyCode::KpMultiply,
        KeyCode::KpSubtract,
        KeyCode::KpAdd,
        KeyCode::KpEnter,
        KeyCode::KpEqual,
        KeyCode::LeftShift,
        KeyCode::LeftControl,
        KeyCode::LeftAlt,
        KeyCode::LeftSuper,
        KeyCode::RightShift,
        KeyCode::RightControl,
        KeyCode::RightAlt,
        KeyCode::RightSuper,
        KeyCode::Menu,
        KeyCode::Unknown,
    ];
    for key in keys {
        assert_eq!(KeyCode::from_name(key.name()), Some(key));
        assert_eq!(KeyCode::from_name(&key.name().to_lowercase()), Some(key));
        assert_eq!(KeyCode::from_name(&key.name().to_uppercase()), Some(key));
    }
}

#[test]
fn test_input_events_buttons() {
    let mut im: InputState<Buttons> = InputState::new();
    im.update_button_down(Buttons::A);
    assert!(im.get_button_down(Buttons::A));
    im.update_button_up(Buttons::A);
    assert!(!im.get_button_down(Buttons::A));
    assert!(im.get_button_up(Buttons::A));
}

#[test]
fn input_effects_compare_positions_as_floats() {
    let zero: InputEffect<Axes, Buttons> = InputEffect::Axis(Axes::Horz, bits(0.0));
    let neg_zero: InputEffect<Axes, Buttons> = InputEffect::Axis(Axes::Horz, bits(-0.0));
    assert_eq!(zero, neg_zero);
    let nan: InputEffect<Axes, Buttons> = InputEffect::Axis(Axes::Horz, bits(f32::NAN));
    let nan_again = nan;
    assert_ne!(nan, nan_again);
    let horz: InputEffect<Axes, Buttons> = InputEffect::Axis(Axes::Horz, bits(1.0));
    let vert: InputEffect<Axes, Buttons> = InputEffect::Axis(Axes::Vert, bits(1.0));
    assert_ne!(horz, vert);
    let p = PointBits { x: bits(0.0), y: bits(2.0) };
    let q = PointBits { x: bits(-0.0), y: bits(2.0) };
    let cursor_p: InputEffect<Axes, Buttons> = InputEffect::Cursor(p);
    let cursor_q: InputEffect<Axes, Buttons> = InputEffect::Cursor(q);
    assert_eq!(cursor_p, cursor_q);
    let click_p: InputEffect<Axes, Buttons> = InputEffect::Button(Buttons::A, Some(p));
    let click_q: InputEffect<Axes, Buttons> = InputEffect::Button(Buttons::A, Some(q));
    let press: InputEffect<Axes, Buttons> = InputEffect::Button(Buttons::A, None);
    assert_eq!(click_p, click_q);
    assert_ne!(click_p, press);
    assert_ne!(cursor_p, click_p);
}

#[test]
fn float_bit_patterns_compare_as_floats() {
    assert!(float_bits_equal(bits(1.5), bits(1.5)));
    assert!(!float_bits_equal(bits(1.5), bits(-1.5)));
    assert!(float_bits_equal(bits(0.0), bits(-0.0)));
    assert!(!float_bits_equal(bits(f32::NAN), bits(f32::NAN)));
    assert!(float_bits_equal(bits(f32::INFINITY), bits(f32::INFINITY)));
    assert!(!float_bits_equal(bits(f32::INFINITY), bits(f32::NEG_INFINITY)));
}
