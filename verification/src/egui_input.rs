//! Input events for the immediate-mode GUI, and the correspondence of its keys, modifiers and
//! cursor icons with the framework's.
use vstd::prelude::*;
use crate::input::{key_name, CursorIcon, KeyCode, KeyMods};

verus! {

/// Whether a character comes from the Unicode private use areas, where the windowing layer sends
/// special keys (backspace, delete, F1, ...) as characters.
pub open spec fn in_private_use_area(c: char) -> bool {
    let u = c as u32;
    (0xe000 <= u <= 0xf8ff) || (0xf0000 <= u <= 0xffffd) || (0x100000 <= u <= 0x10fffd)
}

/// Whether a character is an ASCII control character (`'\0'` to `'\x1f'`, and `'\x7f'`).
pub open spec fn ascii_control(c: char) -> bool {
    let u = c as u32;
    u < 0x20 || u == 0x7f
}

/// Whether a character typed on the keyboard is text for the GUI. The windowing layer sends
/// special keys (backspace, delete, F1, ...) as characters in the private use areas; those are
/// ignored, and so are control characters such as `'\r'`, `'\n'` and `'\t'` (newlines are handled
/// by the `Enter` key event).
pub fn is_printable_char(chr: char) -> (printable: bool)
    ensures
        printable == (!in_private_use_area(chr) && !ascii_control(chr)),
{
    let is_in_private_use_area = '\u{e000}' <= chr && chr <= '\u{f8ff}' || '\u{f0000}' <= chr
        && chr <= '\u{ffffd}' || '\u{100000}' <= chr && chr <= '\u{10fffd}';
    let is_ascii_control = chr <= '\u{1f}' || chr == '\u{7f}';
    !is_in_private_use_area && !is_ascii_control
}

/// The keys the immediate-mode GUI knows.
#[derive(Debug, Copy, Clone, PartialEq, Eq, Hash, Structural)]
pub enum GuiKey {
    ArrowDown, ArrowLeft, ArrowRight, ArrowUp, Escape, Tab, Backspace, Enter,
    Space, Insert, Delete, Home, End, PageUp, PageDown, Num0,
    Num1, Num2, Num3, Num4, Num5, Num6, Num7, Num8,
    Num9, A, B, C, D, E, F, G,
    H, I, J, K, L, M, N, O,
    P, Q, R, S, T, U, V, W,
    X, Y, Z,
}

/// The modifier keys as the GUI reads them: `command` is the platform's command key (the logo
/// key on a Mac, control elsewhere), and `mac_cmd` the logo key on a Mac only.
#[derive(Debug, Copy, Clone, PartialEq, Eq, Hash, Default, Structural)]
pub struct GuiModifiers {
    pub alt: bool,
    pub ctrl: bool,
    pub shift: bool,
    pub mac_cmd: bool,
    pub command: bool,
}

/// The mouse cursor icons the GUI asks for.
#[derive(Debug, Copy, Clone, PartialEq, Eq, Hash, Structural)]
pub enum GuiCursorIcon {
    Default, Hidden, ContextMenu, Help, PointingHand, Progress,
    Wait, Cell, Crosshair, Text, VerticalText, Alias,
    Copy, Move, NoDrop, NotAllowed, Grab, Grabbing,
    AllScroll, ResizeHorizontal, ResizeNeSw, ResizeNwSe, ResizeVertical, ZoomIn,
    ZoomOut,
}

/// A key event for the GUI.
#[derive(Debug, Copy, Clone, PartialEq, Eq, Structural)]
pub enum GuiKeyEvent {
    /// Cut the selection to the clipboard.
    Cut,
    /// Copy the selection to the clipboard.
    Copy,
    /// Paste the clipboard's text.
    Paste,
    /// A key went down (`pressed`) or up.
    Key { key: GuiKey, pressed: bool, modifiers: GuiModifiers },
}

/// The GUI key of a key code, for the keys the GUI knows.
pub open spec fn gui_key_of(key: KeyCode) -> Option<GuiKey> {
    match key {
        KeyCode::Down => Some(GuiKey::ArrowDown),
        KeyCode::Left => Some(GuiKey::ArrowLeft),
        KeyCode::Right => Some(GuiKey::ArrowRight),
        KeyCode::Up => Some(GuiKey::ArrowUp),
        KeyCode::Escape => Some(GuiKey::Escape),
        KeyCode::Tab => Some(GuiKey::Tab),
        KeyCode::Backspace => Some(GuiKey::Backspace),
        KeyCode::Enter => Some(GuiKey::Enter),
        KeyCode::Space => Some(GuiKey::Space),
        KeyCode::Insert => Some(GuiKey::Insert),
        KeyCode::Delete => Some(GuiKey::Delete),
        KeyCode::Home => Some(GuiKey::Home),
        KeyCode::End => Some(GuiKey::End),
        KeyCode::PageUp => Some(GuiKey::PageUp),
        KeyCode::PageDown => Some(GuiKey::PageDown),
        KeyCode::Key0 => Some(GuiKey::Num0),
        KeyCode::Key1 => Some(GuiKey::Num1),
        KeyCode::Key2 => Some(GuiKey::Num2),
        KeyCode::Key3 => Some(GuiKey::Num3),
        KeyCode::Key4 => Some(GuiKey::Num4),
        KeyCode::Key5 => Some(GuiKey::Num5),
        KeyCode::Key6 => Some(GuiKey::Num6),
        KeyCode::Key7 => Some(GuiKey::Num7),
        KeyCode::Key8 => Some(GuiKey::Num8),
        KeyCode::Key9 => Some(GuiKey::Num9),
        KeyCode::A => Some(GuiKey::A),
        KeyCode::B => Some(GuiKey::B),
        KeyCode::C => Some(GuiKey::C),
        KeyCode::D => Some(GuiKey::D),
        KeyCode::E => Some(GuiKey::E),
        KeyCode::F => Some(GuiKey::F),
        KeyCode::G => Some(GuiKey::G),
        KeyCode::H => Some(GuiKey::H),
        KeyCode::I => Some(GuiKey::I),
        KeyCode::J => Some(GuiKey::J),
        KeyCode::K => Some(GuiKey::K),
        KeyCode::L => Some(GuiKey::L),
        KeyCode::M => Some(GuiKey::M),
        KeyCode::N => Some(GuiKey::N),
        KeyCode::O => Some(GuiKey::O),
        KeyCode::P => Some(GuiKey::P),
        KeyCode::Q => Some(GuiKey::Q),
        KeyCode::R => Some(GuiKey::R),
        KeyCode::S => Some(GuiKey::S),
        KeyCode::T => Some(GuiKey::T),
        KeyCode::U => Some(GuiKey::U),
        KeyCode::V => Some(GuiKey::V),
        KeyCode::W => Some(GuiKey::W),
        KeyCode::X => Some(GuiKey::X),
        KeyCode::Y => Some(GuiKey::Y),
        KeyCode::Z => Some(GuiKey::Z),
        _ => None,
    }
}

/// The GUI's modifiers for the modifier keys held, on a Mac or elsewhere.
pub open spec fn gui_modifiers_of(keymods: KeyMods, is_mac: bool) -> GuiModifiers {
    GuiModifiers {
        alt: keymods.alt,
        ctrl: keymods.ctrl,
        shift: keymods.shift,
        mac_cmd: keymods.logo && is_mac,
        command: if is_mac { keymods.logo } else { keymods.ctrl },
    }
}

/// The window cursor icon shown for a GUI cursor icon; `None` where the window has no such icon
/// (and for the hidden cursor, which is handled by hiding the cursor).
pub open spec fn window_cursor_icon_of(icon: GuiCursorIcon) -> Option<CursorIcon> {
    match icon {
        GuiCursorIcon::Default => Some(CursorIcon::Default),
        GuiCursorIcon::Hidden => None,
        GuiCursorIcon::ContextMenu => None,
        GuiCursorIcon::Help => Some(CursorIcon::Help),
        GuiCursorIcon::PointingHand => Some(CursorIcon::Pointer),
        GuiCursorIcon::Progress => Some(CursorIcon::Wait),
        GuiCursorIcon::Wait => Some(CursorIcon::Wait),
        GuiCursorIcon::Cell => None,
        GuiCursorIcon::Crosshair => Some(CursorIcon::Crosshair),
        GuiCursorIcon::Text => Some(CursorIcon::Text),
        GuiCursorIcon::VerticalText => None,
        GuiCursorIcon::Alias => None,
        GuiCursorIcon::Copy => None,
        GuiCursorIcon::Move => Some(CursorIcon::Move),
        GuiCursorIcon::NoDrop => None,
        GuiCursorIcon::NotAllowed => Some(CursorIcon::NotAllowed),
        GuiCursorIcon::Grab => None,
        GuiCursorIcon::Grabbing => None,
        GuiCursorIcon::AllScroll => Some(CursorIcon::Move),
        GuiCursorIcon::ResizeHorizontal => Some(CursorIcon::EWResize),
        GuiCursorIcon::ResizeNeSw => Some(CursorIcon::NESWResize),
        GuiCursorIcon::ResizeNwSe => Some(CursorIcon::NWSEResize),
        GuiCursorIcon::ResizeVertical => Some(CursorIcon::NSResize),
        GuiCursorIcon::ZoomIn => None,
        GuiCursorIcon::ZoomOut => None,
    }
}

/// The name of a GUI key: the name of its variant.
pub open spec fn gui_key_name(key: GuiKey) -> Seq<char> {
    match key {
        GuiKey::ArrowDown => seq!['A', 'r', 'r', 'o', 'w', 'D', 'o', 'w', 'n'],
        GuiKey::ArrowLeft => seq!['A', 'r', 'r', 'o', 'w', 'L', 'e', 'f', 't'],
        GuiKey::ArrowRight => seq!['A', 'r', 'r', 'o', 'w', 'R', 'i', 'g', 'h', 't'],
        GuiKey::ArrowUp => seq!['A', 'r', 'r', 'o', 'w', 'U', 'p'],
        GuiKey::Escape => seq!['E', 's', 'c', 'a', 'p', 'e'],
        GuiKey::Tab => seq!['T', 'a', 'b'],
        GuiKey::Backspace => seq!['B', 'a', 'c', 'k', 's', 'p', 'a', 'c', 'e'],
        GuiKey::Enter => seq!['E', 'n', 't', 'e', 'r'],
        GuiKey::Space => seq!['S', 'p', 'a', 'c', 'e'],
        GuiKey::Insert => seq!['I', 'n', 's', 'e', 'r', 't'],
        GuiKey::Delete => seq!['D', 'e', 'l', 'e', 't', 'e'],
        GuiKey::Home => seq!['H', 'o', 'm', 'e'],
        GuiKey::End => seq!['E', 'n', 'd'],
        GuiKey::PageUp => seq!['P', 'a', 'g', 'e', 'U', 'p'],
        GuiKey::PageDown => seq!['P', 'a', 'g', 'e', 'D', 'o', 'w', 'n'],
        GuiKey::Num0 => seq!['N', 'u', 'm', '0'],
        GuiKey::Num1 => seq!['N', 'u', 'm', '1'],
        GuiKey::Num2 => seq!['N', 'u', 'm', '2'],
        GuiKey::Num3 => seq!['N', 'u', 'm', '3'],
        GuiKey::Num4 => seq!['N', 'u', 'm', '4'],
        GuiKey::Num5 => seq!['N', 'u', 'm', '5'],
        GuiKey::Num6 => seq!['N', 'u', 'm', '6'],
        GuiKey::Num7 => seq!['N', 'u', 'm', '7'],
        GuiKey::Num8 => seq!['N', 'u', 'm', '8'],
        GuiKey::Num9 => seq!['N', 'u', 'm', '9'],
        GuiKey::A => seq!['A'],
        GuiKey::B => seq!['B'],
        GuiKey::C => seq!['C'],
        GuiKey::D => seq!['D'],
        GuiKey::E => seq!['E'],
        GuiKey::F => seq!['F'],
        GuiKey::G => seq!['G'],
        GuiKey::H => seq!['H'],
        GuiKey::I => seq!['I'],
        GuiKey::J => seq!['J'],
        GuiKey::K => seq!['K'],
        GuiKey::L => seq!['L'],
        GuiKey::M => seq!['M'],
        GuiKey::N => seq!['N'],
        GuiKey::O => seq!['O'],
        GuiKey::P => seq!['P'],
        GuiKey::Q => seq!['Q'],
        GuiKey::R => seq!['R'],
        GuiKey::S => seq!['S'],
        GuiKey::T => seq!['T'],
        GuiKey::U => seq!['U'],
        GuiKey::V => seq!['V'],
        GuiKey::W => seq!['W'],
        GuiKey::X => seq!['X'],
        GuiKey::Y => seq!['Y'],
        GuiKey::Z => seq!['Z'],
    }
}

/// Whether a GUI key's name names the same key as a key code's name: the same name, the arrow
/// of a direction (`ArrowUp` for `Up`), or the digit of a number row key (`Num1` for `Key1`).
pub open spec fn names_same_key(code_name: Seq<char>, gui_name: Seq<char>) -> bool {
    ||| gui_name == code_name
    ||| gui_name == seq!['A', 'r', 'r', 'o', 'w'] + code_name
    ||| (code_name.len() == 4 && code_name.take(3) == seq!['K', 'e', 'y'] && gui_name == seq![
        'N',
        'u',
        'm',
    ] + code_name.skip(3))
}

/// The key code the GUI key comes from.
spec fn code_of_gui_key(key: GuiKey) -> KeyCode {
    match key {
        GuiKey::ArrowDown => KeyCode::Down,
        GuiKey::ArrowLeft => KeyCode::Left,
        GuiKey::ArrowRight => KeyCode::Right,
        GuiKey::ArrowUp => KeyCode::Up,
        GuiKey::Escape => KeyCode::Escape,
        GuiKey::Tab => KeyCode::Tab,
        GuiKey::Backspace => KeyCode::Backspace,
        GuiKey::Enter => KeyCode::Enter,
        GuiKey::Space => KeyCode::Space,
        GuiKey::Insert => KeyCode::Insert,
        GuiKey::Delete => KeyCode::Delete,
        GuiKey::Home => KeyCode::Home,
        GuiKey::End => KeyCode::End,
        GuiKey::PageUp => KeyCode::PageUp,
        GuiKey::PageDown => KeyCode::PageDown,
        GuiKey::Num0 => KeyCode::Key0,
        GuiKey::Num1 => KeyCode::Key1,
        GuiKey::Num2 => KeyCode::Key2,
        GuiKey::Num3 => KeyCode::Key3,
        GuiKey::Num4 => KeyCode::Key4,
        GuiKey::Num5 => KeyCode::Key5,
        GuiKey::Num6 => KeyCode::Key6,
        GuiKey::Num7 => KeyCode::Key7,
        GuiKey::Num8 => KeyCode::Key8,
        GuiKey::Num9 => KeyCode::Key9,
        GuiKey::A => KeyCode::A,
        GuiKey::B => KeyCode::B,
        GuiKey::C => KeyCode::C,
        GuiKey::D => KeyCode::D,
        GuiKey::E => KeyCode::E,
        GuiKey::F => KeyCode::F,
        GuiKey::G => KeyCode::G,
        GuiKey::H => KeyCode::H,
        GuiKey::I => KeyCode::I,
        GuiKey::J => KeyCode::J,
        GuiKey::K => KeyCode::K,
        GuiKey::L => KeyCode::L,
        GuiKey::M => KeyCode::M,
        GuiKey::N => KeyCode::N,
        GuiKey::O => KeyCode::O,
        GuiKey::P => KeyCode::P,
        GuiKey::Q => KeyCode::Q,
        GuiKey::R => KeyCode::R,
        GuiKey::S => KeyCode::S,
        GuiKey::T => KeyCode::T,
        GuiKey::U => KeyCode::U,
        GuiKey::V => KeyCode::V,
        GuiKey::W => KeyCode::W,
        GuiKey::X => KeyCode::X,
        GuiKey::Y => KeyCode::Y,
        GuiKey::Z => KeyCode::Z,
    }
}

proof fn lemma_gui_key_comes_from(key: KeyCode)
    ensures
        gui_key_of(key) matches Some(g) ==> key == code_of_gui_key(g),
{
}

/// The GUI gets every key it knows: each GUI key comes from exactly one key code, and that key
/// code names the same key.
pub proof fn lemma_gui_keys_correspond(gui: GuiKey, key: KeyCode, other: KeyCode)
    ensures
        exists|k: KeyCode| gui_key_of(k) == Some(gui),
        gui_key_of(key) matches Some(g) ==> names_same_key(key_name(key), gui_key_name(g)),
        (gui_key_of(key) is Some && gui_key_of(key) == gui_key_of(other)) ==> key == other,
{
    assert(gui_key_of(code_of_gui_key(gui)) == Some(gui));
    lemma_gui_key_comes_from(key);
    lemma_gui_key_comes_from(other);
    lemma_gui_key_names(key);
}

proof fn lemma_gui_key_names(key: KeyCode)
    ensures
        gui_key_of(key) matches Some(g) ==> names_same_key(key_name(key), gui_key_name(g)),
{
    match key {
        KeyCode::Down => {
            assert(gui_key_name(GuiKey::ArrowDown) =~= seq!['A', 'r', 'r', 'o', 'w'] + key_name(key));
        },
        KeyCode::Left => {
            assert(gui_key_name(GuiKey::ArrowLeft) =~= seq!['A', 'r', 'r', 'o', 'w'] + key_name(key));
        },
        KeyCode::Right => {
            assert(gui_key_name(GuiKey::ArrowRight) =~= seq!['A', 'r', 'r', 'o', 'w'] + key_name(key));
        },
        KeyCode::Up => {
            assert(gui_key_name(GuiKey::ArrowUp) =~= seq!['A', 'r', 'r', 'o', 'w'] + key_name(key));
        },
        KeyCode::Escape => {
            assert(gui_key_name(GuiKey::Escape) =~= key_name(key));
        },
        KeyCode::Tab => {
            assert(gui_key_name(GuiKey::Tab) =~= key_name(key));
        },
        KeyCode::Backspace => {
            assert(gui_key_name(GuiKey::Backspace) =~= key_name(key));
        },
        KeyCode::Enter => {
            assert(gui_key_name(GuiKey::Enter) =~= key_name(key));
        },
        KeyCode::Space => {
            assert(gui_key_name(GuiKey::Space) =~= key_name(key));
        },
        KeyCode::Insert => {
            assert(gui_key_name(GuiKey::Insert) =~= key_name(key));
        },
        KeyCode::Delete => {
            assert(gui_key_name(GuiKey::Delete) =~= key_name(key));
        },
        KeyCode::Home => {
            assert(gui_key_name(GuiKey::Home) =~= key_name(key));
        },
        KeyCode::End => {
            assert(gui_key_name(GuiKey::End) =~= key_name(key));
        },
        KeyCode::PageUp => {
            assert(gui_key_name(GuiKey::PageUp) =~= key_name(key));
        },
        KeyCode::PageDown => {
            assert(gui_key_name(GuiKey::PageDown) =~= key_name(key));
        },
        KeyCode::Key0 => {
            assert(key_name(key).take(3) =~= seq!['K', 'e', 'y']);
            assert(gui_key_name(GuiKey::Num0) =~= seq!['N', 'u', 'm'] + key_name(key).skip(3));
        },
        KeyCode::Key1 => {
            assert(key_name(key).take(3) =~= seq!['K', 'e', 'y']);
            assert(gui_key_name(GuiKey::Num1) =~= seq!['N', 'u', 'm'] + key_name(key).skip(3));
        },
        KeyCode::Key2 => {
            assert(key_name(key).take(3) =~= seq!['K', 'e', 'y']);
            assert(gui_key_name(GuiKey::Num2) =~= seq!['N', 'u', 'm'] + key_name(key).skip(3));
        },
        KeyCode::Key3 => {
            assert(key_name(key).take(3) =~= seq!['K', 'e', 'y']);
            assert(gui_key_name(GuiKey::Num3) =~= seq!['N', 'u', 'm'] + key_name(key).skip(3));
        },
        KeyCode::Key4 => {
            assert(key_name(key).take(3) =~= seq!['K', 'e', 'y']);
            assert(gui_key_name(GuiKey::Num4) =~= seq!['N', 'u', 'm'] + key_name(key).skip(3));
        },
        KeyCode::Key5 => {
            assert(key_name(key).take(3) =~= seq!['K', 'e', 'y']);
            assert(gui_key_name(GuiKey::Num5) =~= seq!['N', 'u', 'm'] + key_name(key).skip(3));
        },
        KeyCode::Key6 => {
            assert(key_name(key).take(3) =~= seq!['K', 'e', 'y']);
            assert(gui_key_name(GuiKey::Num6) =~= seq!['N', 'u', 'm'] + key_name(key).skip(3));
        },
        KeyCode::Key7 => {
            assert(key_name(key).take(3) =~= seq!['K', 'e', 'y']);
            assert(gui_key_name(GuiKey::Num7) =~= seq!['N', 'u', 'm'] + key_name(key).skip(3));
        },
        KeyCode::Key8 => {
            assert(key_name(key).take(3) =~= seq!['K', 'e', 'y']);
            assert(gui_key_name(GuiKey::Num8) =~= seq!['N', 'u', 'm'] + key_name(key).skip(3));
        },
        KeyCode::Key9 => {
            assert(key_name(key).take(3) =~= seq!['K', 'e', 'y']);
            assert(gui_key_name(GuiKey::Num9) =~= seq!['N', 'u', 'm'] + key_name(key).skip(3));
        },
        KeyCode::A => {
            assert(gui_key_name(GuiKey::A) =~= key_name(key));
        },
        KeyCode::B => {
            assert(gui_key_name(GuiKey::B) =~= key_name(key));
        },
        KeyCode::C => {
            assert(gui_key_name(GuiKey::C) =~= key_name(key));
        },
        KeyCode::D => {
            assert(gui_key_name(GuiKey::D) =~= key_name(key));
        },
        KeyCode::E => {
            assert(gui_key_name(GuiKey::E) =~= key_name(key));
        },
        KeyCode::F => {
            assert(gui_key_name(GuiKey::F) =~= key_name(key));
        },
        KeyCode::G => {
            assert(gui_key_name(GuiKey::G) =~= key_name(key));
        },
        KeyCode::H => {
            assert(gui_key_name(GuiKey::H) =~= key_name(key));
        },
        KeyCode::I => {
            assert(gui_key_name(GuiKey::I) =~= key_name(key));
        },
        KeyCode::J => {
            assert(gui_key_name(GuiKey::J) =~= key_name(key));
        },
        KeyCode::K => {
            assert(gui_key_name(GuiKey::K) =~= key_name(key));
        },
        KeyCode::L => {
            assert(gui_key_name(GuiKey::L) =~= key_name(key));
        },
        KeyCode::M => {
            assert(gui_key_name(GuiKey::M) =~= key_name(key));
        },
        KeyCode::N => {
            assert(gui_key_name(GuiKey::N) =~= key_name(key));
        },
        KeyCode::O => {
            assert(gui_key_name(GuiKey::O) =~= key_name(key));
        },
        KeyCode::P => {
            assert(gui_key_name(GuiKey::P) =~= key_name(key));
        },
        KeyCode::Q => {
            assert(gui_key_name(GuiKey::Q) =~= key_name(key));
        },
        KeyCode::R => {
            assert(gui_key_name(GuiKey::R) =~= key_name(key));
        },
        KeyCode::S => {
            assert(gui_key_name(GuiKey::S) =~= key_name(key));
        },
        KeyCode::T => {
            assert(gui_key_name(GuiKey::T) =~= key_name(key));
        },
        KeyCode::U => {
            assert(gui_key_name(GuiKey::U) =~= key_name(key));
        },
        KeyCode::V => {
            assert(gui_key_name(GuiKey::V) =~= key_name(key));
        },
        KeyCode::W => {
            assert(gui_key_name(GuiKey::W) =~= key_name(key));
        },
        KeyCode::X => {
            assert(gui_key_name(GuiKey::X) =~= key_name(key));
        },
        KeyCode::Y => {
            assert(gui_key_name(GuiKey::Y) =~= key_name(key));
        },
        KeyCode::Z => {
            assert(gui_key_name(GuiKey::Z) =~= key_name(key));
        },
        _ => {},
    }
}

/// The GUI key of a key code, for the keys the GUI knows.
pub fn egui_key_from_hv_key(key: KeyCode) -> (gui_key: Option<GuiKey>)
    ensures
        gui_key == gui_key_of(key),
{
    match key {
            KeyCode::Down => Some(GuiKey::ArrowDown),
            KeyCode::Left => Some(GuiKey::ArrowLeft),
            KeyCode::Right => Some(GuiKey::ArrowRight),
            KeyCode::Up => Some(GuiKey::ArrowUp),
            KeyCode::Escape => Some(GuiKey::Escape),
            KeyCode::Tab => Some(GuiKey::Tab),
            KeyCode::Backspace => Some(GuiKey::Backspace),
            KeyCode::Enter => Some(GuiKey::Enter),
            KeyCode::Space => Some(GuiKey::Space),
            KeyCode::Insert => Some(GuiKey::Insert),
            KeyCode::Delete => Some(GuiKey::Delete),
            KeyCode::Home => Some(GuiKey::Home),
            KeyCode::End => Some(GuiKey::End),
            KeyCode::PageUp => Some(GuiKey::PageUp),
            KeyCode::PageDown => Some(GuiKey::PageDown),
            KeyCode::Key0 => Some(GuiKey::Num0),
            KeyCode::Key1 => Some(GuiKey::Num1),
            KeyCode::Key2 => Some(GuiKey::Num2),
            KeyCode::Key3 => Some(GuiKey::Num3),
            KeyCode::Key4 => Some(GuiKey::Num4),
            KeyCode::Key5 => Some(GuiKey::Num5),
            KeyCode::Key6 => Some(GuiKey::Num6),
            KeyCode::Key7 => Some(GuiKey::Num7),
            KeyCode::Key8 => Some(GuiKey::Num8),
            KeyCode::Key9 => Some(GuiKey::Num9),
            KeyCode::A => Some(GuiKey::A),
            KeyCode::B => Some(GuiKey::B),
            KeyCode::C => Some(GuiKey::C),
            KeyCode::D => Some(GuiKey::D),
            KeyCode::E => Some(GuiKey::E),
            KeyCode::F => Some(GuiKey::F),
            KeyCode::G => Some(GuiKey::G),
            KeyCode::H => Some(GuiKey::H),
            KeyCode::I => Some(GuiKey::I),
            KeyCode::J => Some(GuiKey::J),
            KeyCode::K => Some(GuiKey::K),
            KeyCode::L => Some(GuiKey::L),
            KeyCode::M => Some(GuiKey::M),
            KeyCode::N => Some(GuiKey::N),
            KeyCode::O => Some(GuiKey::O),
            KeyCode::P => Some(GuiKey::P),
            KeyCode::Q => Some(GuiKey::Q),
            KeyCode::R => Some(GuiKey::R),
            KeyCode::S => Some(GuiKey::S),
            KeyCode::T => Some(GuiKey::T),
            KeyCode::U => Some(GuiKey::U),
            KeyCode::V => Some(GuiKey::V),
            KeyCode::W => Some(GuiKey::W),
            KeyCode::X => Some(GuiKey::X),
            KeyCode::Y => Some(GuiKey::Y),
            KeyCode::Z => Some(GuiKey::Z),
        _ => None,
    }
}

/// The GUI's modifiers for the modifier keys held; `is_mac` says whether the program runs on a
/// Mac, where the logo key is the command key.
pub fn egui_modifiers_from_hv_modifiers(keymods: KeyMods, is_mac: bool) -> (modifiers: GuiModifiers)
    ensures
        modifiers == gui_modifiers_of(keymods, is_mac),
{
    GuiModifiers {
        alt: keymods.alt,
        ctrl: keymods.ctrl,
        shift: keymods.shift,
        mac_cmd: keymods.logo && is_mac,
        command: if is_mac { keymods.logo } else { keymods.ctrl },
    }
}

/// The window cursor icon shown for a GUI cursor icon, where the window has a matching one.
pub fn to_mq_cursor_icon(icon: GuiCursorIcon) -> (window_icon: Option<CursorIcon>)
    ensures
        window_icon == window_cursor_icon_of(icon),
{
    match icon {
            GuiCursorIcon::Default => Some(CursorIcon::Default),
            GuiCursorIcon::Hidden => None,
            GuiCursorIcon::ContextMenu => None,
            GuiCursorIcon::Help => Some(CursorIcon::Help),
            GuiCursorIcon::PointingHand => Some(CursorIcon::Pointer),
            GuiCursorIcon::Progress => Some(CursorIcon::Wait),
            GuiCursorIcon::Wait => Some(CursorIcon::Wait),
            GuiCursorIcon::Cell => None,
            GuiCursorIcon::Crosshair => Some(CursorIcon::Crosshair),
            GuiCursorIcon::Text => Some(CursorIcon::Text),
            GuiCursorIcon::VerticalText => None,
            GuiCursorIcon::Alias => None,
            GuiCursorIcon::Copy => None,
            GuiCursorIcon::Move => Some(CursorIcon::Move),
            GuiCursorIcon::NoDrop => None,
            GuiCursorIcon::NotAllowed => Some(CursorIcon::NotAllowed),
            GuiCursorIcon::Grab => None,
            GuiCursorIcon::Grabbing => None,
            GuiCursorIcon::AllScroll => Some(CursorIcon::Move),
            GuiCursorIcon::ResizeHorizontal => Some(CursorIcon::EWResize),
            GuiCursorIcon::ResizeNeSw => Some(CursorIcon::NESWResize),
            GuiCursorIcon::ResizeNwSe => Some(CursorIcon::NWSEResize),
            GuiCursorIcon::ResizeVertical => Some(CursorIcon::NSResize),
            GuiCursorIcon::ZoomIn => None,
            GuiCursorIcon::ZoomOut => None,
    }
}

/// The GUI event for a key going down with `modifiers` held: with the command key, `X` cuts,
/// `C` copies and `V` pastes; otherwise a key the GUI knows is sent as pressed, and other keys
/// send nothing.
pub fn key_down_action(keycode: KeyCode, modifiers: GuiModifiers) -> (event: Option<GuiKeyEvent>)
    ensures
        event == (if modifiers.command && keycode == KeyCode::X {
            Some(GuiKeyEvent::Cut)
        } else if modifiers.command && keycode == KeyCode::C {
            Some(GuiKeyEvent::Copy)
        } else if modifiers.command && keycode == KeyCode::V {
            Some(GuiKeyEvent::Paste)
        } else {
            match gui_key_of(keycode) {
                Some(key) => Some(GuiKeyEvent::Key { key, pressed: true, modifiers }),
                None => None,
            }
        }),
{
    if modifiers.command && keycode == KeyCode::X {
        Some(GuiKeyEvent::Cut)
    } else if modifiers.command && keycode == KeyCode::C {
        Some(GuiKeyEvent::Copy)
    } else if modifiers.command && keycode == KeyCode::V {
        Some(GuiKeyEvent::Paste)
    } else {
        match egui_key_from_hv_key(keycode) {
            Some(key) => Some(GuiKeyEvent::Key { key, pressed: true, modifiers }),
            None => None,
        }
    }
}

/// The GUI event for a key going up with `modifiers` held: a key the GUI knows is sent as
/// released, other keys send nothing.
pub fn key_up_action(keycode: KeyCode, modifiers: GuiModifiers) -> (event: Option<GuiKeyEvent>)
    ensures
        event == (match gui_key_of(keycode) {
            Some(key) => Some(GuiKeyEvent::Key { key, pressed: false, modifiers }),
            None => None,
        }),
{
    match egui_key_from_hv_key(keycode) {
        Some(key) => Some(GuiKeyEvent::Key { key, pressed: false, modifiers }),
        None => None,
    }
}

/// Whether a typed character is sent to the GUI as text: it must be printable, and neither
/// control nor the Mac command key may be held.
pub fn char_is_text(chr: char, modifiers: GuiModifiers) -> (text: bool)
    ensures
        text == (!in_private_use_area(chr) && !ascii_control(chr) && !modifiers.ctrl
            && !modifiers.mac_cmd),
{
    is_printable_char(chr) && !modifiers.ctrl && !modifiers.mac_cmd
}

} // verus!
