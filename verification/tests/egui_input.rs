use heavy::egui_input::{
    char_is_text, egui_key_from_hv_key, egui_modifiers_from_hv_modifiers, key_down_action,
    key_up_action, to_mq_cursor_icon, GuiCursorIcon, GuiKey, GuiKeyEvent, GuiModifiers,
};
use heavy::input::{CursorIcon, KeyCode, KeyMods};

fn mods(shift: bool, ctrl: bool, alt: bool, logo: bool) -> KeyMods {
    KeyMods { shift, ctrl, alt, logo }
}

#[test]
fn keys_known_to_the_gui() {
    assert_eq!(egui_key_from_hv_key(KeyCode::Down), Some(GuiKey::ArrowDown));
    assert_eq!(egui_key_from_hv_key(KeyCode::Key7), Some(GuiKey::Num7));
    assert_eq!(egui_key_from_hv_key(KeyCode::Q), Some(GuiKey::Q));
    assert_eq!(egui_key_from_hv_key(KeyCode::PageDown), Some(GuiKey::PageDown));
    assert_eq!(egui_key_from_hv_key(KeyCode::F1), None);
    assert_eq!(egui_key_from_hv_key(KeyCode::Kp7), None);
    assert_eq!(egui_key_from_hv_key(KeyCode::LeftShift), None);
}

#[test]
fn command_key_depends_on_platform() {
    let m = egui_modifiers_from_hv_modifiers(mods(true, true, false, false), false);
    assert_eq!(
        m,
        GuiModifiers { alt: false, ctrl: true, shift: true, mac_cmd: false, command: true }
    );
    let m = egui_modifiers_from_hv_modifiers(mods(false, true, false, false), true);
    assert!(!m.command && !m.mac_cmd && m.ctrl);
    let m = egui_modifiers_from_hv_modifiers(mods(false, false, true, true), true);
    assert_eq!(
        m,
        GuiModifiers { alt: true, ctrl: false, shift: false, mac_cmd: true, command: true }
    );
    let m = egui_modifiers_from_hv_modifiers(mods(false, false, false, true), false);
    assert!(!m.command && !m.mac_cmd);
}

#[test]
fn clipboard_shortcuts_and_keys() {
    let command = GuiModifiers { command: true, ..GuiModifiers::default() };
    let plain = GuiModifiers::default();
    assert_eq!(key_down_action(KeyCode::X, command), Some(GuiKeyEvent::Cut));
    assert_eq!(key_down_action(KeyCode::C, command), Some(GuiKeyEvent::Copy));
    assert_eq!(key_down_action(KeyCode::V, command), Some(GuiKeyEvent::Paste));
    assert_eq!(
        key_down_action(KeyCode::X, plain),
        Some(GuiKeyEvent::Key { key: GuiKey::X, pressed: true, modifiers: plain })
    );
    assert_eq!(
        key_down_action(KeyCode::A, command),
        Some(GuiKeyEvent::Key { key: GuiKey::A, pressed: true, modifiers: command })
    );
    assert_eq!(key_down_action(KeyCode::F5, plain), None);
    assert_eq!(
        key_up_action(KeyCode::X, command),
        Some(GuiKeyEvent::Key { key: GuiKey::X, pressed: false, modifiers: command })
    );
    assert_eq!(key_up_action(KeyCode::Menu, plain), None);
}

#[test]
fn typed_text() {
    let plain = GuiModifiers::default();
    assert!(char_is_text('a', plain));
    assert!(!char_is_text('a', GuiModifiers { ctrl: true, ..plain }));
    assert!(!char_is_text('a', GuiModifiers { mac_cmd: true, ..plain }));
    assert!(char_is_text('a', GuiModifiers { shift: true, alt: true, ..plain }));
    assert!(!char_is_text('\t', plain));
}

#[test]
fn cursor_icons() {
    assert_eq!(to_mq_cursor_icon(GuiCursorIcon::PointingHand), Some(CursorIcon::Pointer));
    assert_eq!(to_mq_cursor_icon(GuiCursorIcon::ResizeNeSw), Some(CursorIcon::NESWResize));
    assert_eq!(to_mq_cursor_icon(GuiCursorIcon::AllScroll), Some(CursorIcon::Move));
    assert_eq!(to_mq_cursor_icon(GuiCursorIcon::Progress), Some(CursorIcon::Wait));
    assert_eq!(to_mq_cursor_icon(GuiCursorIcon::Grab), None);
    assert_eq!(to_mq_cursor_icon(GuiCursorIcon::ZoomIn), None);
    assert_eq!(to_mq_cursor_icon(GuiCursorIcon::Hidden), None);
}
