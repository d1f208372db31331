use std::collections::BTreeMap;
use heavy::belltower::{
    class_focus_lost, default_input_binding, edit_buffers_for, field_focus_lost,
    frames_since_press_after, next_press_count, object_label, sweep_edit_buffers, Axes, Buttons,
    ObjectEditBuffers,
};
use heavy::input::InputState;
use heavy::input::{InputEffect, KeyCode, MouseButton, PointBits};
use heavy::conf::Conf;
use heavy::egui_input::is_printable_char;
use heavy::friends::SimpleHandler;
use heavy::spaces::ObjectError;

#[test]
fn default_conf() {
    let conf = Conf::default();
    assert_eq!(conf.window_title, "HEAVY \\m/");
    assert_eq!(conf.window_width, 800);
    assert_eq!(conf.window_height, 680);
}

#[test]
fn object_error_messages() {
    assert_eq!(ObjectError::NoSuchObject.message(), "no such object");
    assert_eq!(ObjectError::WrongSpace.message(), "wrong space");
}

#[test]
fn printable_chars() {
    assert!(is_printable_char('a'));
    assert!(is_printable_char('é'));
    assert!(is_printable_char(' '));
    assert!(!is_printable_char('\n'));
    assert!(!is_printable_char('\u{7f}'));
    assert!(!is_printable_char('\u{f700}'));
    assert!(!is_printable_char('\u{f0000}'));
    assert!(!is_printable_char('\u{10fffd}'));
    assert!(is_printable_char('\u{10fffe}'));
}

#[test]
fn edit_buffers_start_from_the_object() {
    let bufs = ObjectEditBuffers::new("door".to_string(), "Door".to_string());
    assert_eq!(bufs.name, "door");
    assert_eq!(bufs.original_name, "door");
    assert_eq!(bufs.object_class, "Door");
    assert_eq!(bufs.original_object_class, "Door");
    assert!(bufs.live);
}

#[test]
fn simple_handler_entrypoint() {
    let h = SimpleHandler::new("main");
    assert_eq!(h.entrypoint(), "main");
    heavy::friends::link_me();
}

#[test]
fn press_counters() {
    assert_eq!(frames_since_press_after(true, true, 17), 0);
    assert_eq!(frames_since_press_after(false, true, 0), 1);
    assert_eq!(frames_since_press_after(false, true, u32::MAX), u32::MAX);
    assert_eq!(frames_since_press_after(false, false, 3), u32::MAX);
}

#[test]
fn belltower_controls() {
    let b = default_input_binding();
    assert_eq!(b.resolve_keycode(KeyCode::W), Some(InputEffect::Axis(Axes::Vert, 1.0f32.to_bits())));
    assert_eq!(b.resolve_keycode(KeyCode::A), Some(InputEffect::Axis(Axes::Horz, (-1.0f32).to_bits())));
    assert_eq!(b.resolve_keycode(KeyCode::LeftShift), Some(InputEffect::Button(Buttons::Focus, None)));
    assert_eq!(b.resolve_keycode(KeyCode::Up), None);
    let p = PointBits { x: 5, y: 6 };
    assert_eq!(
        b.resolve_mouse_button(MouseButton::Right, p),
        Some(InputEffect::Button(Buttons::Crush, Some(p)))
    );
}

#[test]
fn belltower_object_labels() {
    assert_eq!(object_label(Some("door"), 12, Some("Door")), "door (12): Door");
    assert_eq!(object_label(Some("door"), 12, None), "door (12)");
    assert_eq!(object_label(None, 12, Some("Door")), "12: Door");
    assert_eq!(object_label(None, 12, None), "12");
    assert_eq!(object_label(None, 0, None), "0");
}

fn bufs(name: &str, class: &str, live: bool) -> ObjectEditBuffers {
    let mut b = ObjectEditBuffers::new(name.to_string(), class.to_string());
    b.live = live;
    b
}

#[test]
fn belltower_sweep_keeps_live_buffers() {
    let mut v: BTreeMap<u64, ObjectEditBuffers> = BTreeMap::new();
    v.insert(1, bufs("a", "A", true));
    v.insert(2, bufs("b", "B", false));
    v.insert(3, bufs("c", "C", true));
    sweep_edit_buffers(&mut v);
    assert_eq!(v.len(), 2);
    assert_eq!(v[&1].name, "a");
    assert!(!v[&1].live);
    assert!(!v.contains_key(&2));
    assert_eq!(v[&3].name, "c");
    assert!(!v[&3].live);
    // a second sweep with nothing shown drops everything
    sweep_edit_buffers(&mut v);
    assert!(v.is_empty());
}

#[test]
fn belltower_edit_buffers_found_or_made() {
    let mut v: BTreeMap<u64, ObjectEditBuffers> = BTreeMap::new();
    v.insert(5, bufs("x", "X", false));
    edit_buffers_for(&mut v, 5, "ignored".to_string(), "Ignored".to_string());
    assert_eq!(v.len(), 1);
    assert_eq!(v[&5].name, "x");
    assert!(v[&5].live);
    edit_buffers_for(&mut v, 9, "y".to_string(), "Y".to_string());
    assert_eq!(v.len(), 2);
    assert_eq!(v[&9].original_name, "y");
    assert_eq!(v[&9].object_class, "Y");
    assert!(v[&9].live);
}

#[test]
fn belltower_field_focus_lost() {
    let mut b = bufs("old", "C", true);
    b.name = "new".to_string();
    assert_eq!(field_focus_lost(&mut b, true), Some("new".to_string()));
    assert!(!b.live);
    assert_eq!(b.name, "new");

    let mut b = bufs("old", "C", true);
    b.name = "new".to_string();
    assert_eq!(field_focus_lost(&mut b, false), None);
    assert_eq!(b.name, "old");
    assert!(b.live);
}

#[test]
fn belltower_class_focus_lost() {
    let mut b = bufs("n", "Old", true);
    b.object_class = "New".to_string();
    assert!(class_focus_lost(&mut b, true, true));
    assert!(!b.live);
    assert_eq!(b.object_class, "New");

    let mut b = bufs("n", "Old", true);
    b.object_class = "Bad".to_string();
    assert!(!class_focus_lost(&mut b, true, false));
    assert!(b.live);
    assert_eq!(b.object_class, "Bad");

    let mut b = bufs("n", "Old", true);
    b.object_class = "New".to_string();
    assert!(!class_focus_lost(&mut b, false, true));
    assert_eq!(b.object_class, "Old");
}

#[test]
fn belltower_next_press_count() {
    let mut input: InputState<Buttons> = InputState::new();
    assert_eq!(next_press_count(&input, Buttons::Dash, 7), u32::MAX);
    input.update_button_down(Buttons::Dash);
    assert_eq!(next_press_count(&input, Buttons::Dash, 7), 0);
    input.update();
    assert_eq!(next_press_count(&input, Buttons::Dash, 7), 8);
    assert_eq!(next_press_count(&input, Buttons::Dash, u32::MAX), u32::MAX);
}
