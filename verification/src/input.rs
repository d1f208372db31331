//! Abstract input: physical inputs (keys, mouse buttons, gamepad buttons and axes) are bound to
//! the logical axes and buttons of a game, and an input state keeps track of which logical buttons
//! are held and which changed this frame.
//!
//! Positions (of the mouse, of an axis) are only stored and handed back here, never computed
//! with: each coordinate is kept as the bit pattern of its 32-bit IEEE 754 value. Smoothing axes
//! and measuring mouse motion is arithmetic on those values and is done by the caller.
use vstd::prelude::*;
use vstd::std_specs::cmp::PartialEqSpecImpl;
use vstd::std_specs::cmp::PartialEqSpec;
use crate::util::{ascii_lower, eq_ignoring_ascii_case, str_eq_ignore_ascii_case};

verus! {

/// Supported key codes.
#[derive(Debug, Copy, Clone, PartialEq, Eq, Hash, Structural)]
pub enum KeyCode {
    Space, Apostrophe, Comma, Minus, Period, Slash, Key0, Key1,
    Key2, Key3, Key4, Key5, Key6, Key7, Key8, Key9,
    Semicolon, Equal, A, B, C, D, E, F,
    G, H, I, J, K, L, M, N,
    O, P, Q, R, S, T, U, V,
    W, X, Y, Z, LeftBracket, Backslash, RightBracket, GraveAccent,
    World1, World2, Escape, Enter, Tab, Backspace, Insert, Delete,
    Right, Left, Down, Up, PageUp, PageDown, Home, End,
    CapsLock, ScrollLock, NumLock, PrintScreen, Pause, F1, F2, F3,
    F4, F5, F6, F7, F8, F9, F10, F11,
    F12, F13, F14, F15, F16, F17, F18, F19,
    F20, F21, F22, F23, F24, F25, Kp0, Kp1,
    Kp2, Kp3, Kp4, Kp5, Kp6, Kp7, Kp8, Kp9,
    KpDecimal, KpDivide, KpMultiply, KpSubtract, KpAdd, KpEnter, KpEqual, LeftShift,
    LeftControl, LeftAlt, LeftSuper, RightShift, RightControl, RightAlt, RightSuper, Menu,
    Unknown,
}

/// Each key code's name is the name of its variant, as declared (part 1 of the declaration).
pub proof fn lemma_key_names_as_declared_1()
    ensures
        key_name(KeyCode::Space) == "Space"@,
        key_name(KeyCode::Apostrophe) == "Apostrophe"@,
        key_name(KeyCode::Comma) == "Comma"@,
        key_name(KeyCode::Minus) == "Minus"@,
        key_name(KeyCode::Period) == "Period"@,
        key_name(KeyCode::Slash) == "Slash"@,
        key_name(KeyCode::Key0) == "Key0"@,
        key_name(KeyCode::Key1) == "Key1"@,
        key_name(KeyCode::Key2) == "Key2"@,
        key_name(KeyCode::Key3) == "Key3"@,
        key_name(KeyCode::Key4) == "Key4"@,
        key_name(KeyCode::Key5) == "Key5"@,
        key_name(KeyCode::Key6) == "Key6"@,
        key_name(KeyCode::Key7) == "Key7"@,
        key_name(KeyCode::Key8) == "Key8"@,
        key_name(KeyCode::Key9) == "Key9"@,
        key_name(KeyCode::Semicolon) == "Semicolon"@,
        key_name(KeyCode::Equal) == "Equal"@,
        key_name(KeyCode::A) == "A"@,
        key_name(KeyCode::B) == "B"@,
        key_name(KeyCode::C) == "C"@,
        key_name(KeyCode::D) == "D"@,
        key_name(KeyCode::E) == "E"@,
        key_name(KeyCode::F) == "F"@,
        key_name(KeyCode::G) == "G"@,
        key_name(KeyCode::H) == "H"@,
        key_name(KeyCode::I) == "I"@,
        key_name(KeyCode::J) == "J"@,
        key_name(KeyCode::K) == "K"@,
        key_name(KeyCode::L) == "L"@,
        key_name(KeyCode::M) == "M"@,
{
    reveal_strlit("Space");
    reveal_strlit("Apostrophe");
    reveal_strlit("Comma");
    reveal_strlit("Minus");
    reveal_strlit("Period");
    reveal_strlit("Slash");
    reveal_strlit("Key0");
    reveal_strlit("Key1");
    reveal_strlit("Key2");
    reveal_strlit("Key3");
    reveal_strlit("Key4");
    reveal_strlit("Key5");
    reveal_strlit("Key6");
    reveal_strlit("Key7");
    reveal_strlit("Key8");
    reveal_strlit("Key9");
    reveal_strlit("Semicolon");
    reveal_strlit("Equal");
    reveal_strlit("A");
    reveal_strlit("B");
    reveal_strlit("C");
    reveal_strlit("D");
    reveal_strlit("E");
    reveal_strlit("F");
    reveal_strlit("G");
    reveal_strlit("H");
    reveal_strlit("I");
    reveal_strlit("J");
    reveal_strlit("K");
    reveal_strlit("L");
    reveal_strlit("M");
}

/// Each key code's name is the name of its variant, as declared (part 2 of the declaration).
pub proof fn lemma_key_names_as_declared_2()
    ensures
        key_name(KeyCode::N) == "N"@,
        key_name(KeyCode::O) == "O"@,
        key_name(KeyCode::P) == "P"@,
        key_name(KeyCode::Q) == "Q"@,
        key_name(KeyCode::R) == "R"@,
        key_name(KeyCode::S) == "S"@,
        key_name(KeyCode::T) == "T"@,
        key_name(KeyCode::U) == "U"@,
        key_name(KeyCode::V) == "V"@,
        key_name(KeyCode::W) == "W"@,
        key_name(KeyCode::X) == "X"@,
        key_name(KeyCode::Y) == "Y"@,
        key_name(KeyCode::Z) == "Z"@,
        key_name(KeyCode::LeftBracket) == "LeftBracket"@,
        key_name(KeyCode::Backslash) == "Backslash"@,
        key_name(KeyCode::RightBracket) == "RightBracket"@,
        key_name(KeyCode::GraveAccent) == "GraveAccent"@,
        key_name(KeyCode::World1) == "World1"@,
        key_name(KeyCode::World2) == "World2"@,
        key_name(KeyCode::Escape) == "Escape"@,
        key_name(KeyCode::Enter) == "Enter"@,
        key_name(KeyCode::Tab) == "Tab"@,
        key_name(KeyCode::Backspace) == "Backspace"@,
        key_name(KeyCode::Insert) == "Insert"@,
        key_name(KeyCode::Delete) == "Delete"@,
        key_name(KeyCode::Right) == "Right"@,
        key_name(KeyCode::Left) == "Left"@,
        key_name(KeyCode::Down) == "Down"@,
        key_name(KeyCode::Up) == "Up"@,
        key_name(KeyCode::PageUp) == "PageUp"@,
        key_name(KeyCode::PageDown) == "PageDown"@,
{
    reveal_strlit("N");
    reveal_strlit("O");
    reveal_strlit("P");
    reveal_strlit("Q");
    reveal_strlit("R");
    reveal_strlit("S");
    reveal_strlit("T");
    reveal_strlit("U");
    reveal_strlit("V");
    reveal_strlit("W");
    reveal_strlit("X");
    reveal_strlit("Y");
    reveal_strlit("Z");
    reveal_strlit("LeftBracket");
    reveal_strlit("Backslash");
    reveal_strlit("RightBracket");
    reveal_strlit("GraveAccent");
    reveal_strlit("World1");
    reveal_strlit("World2");
    reveal_strlit("Escape");
    reveal_strlit("Enter");
    reveal_strlit("Tab");
    reveal_strlit("Backspace");
    reveal_strlit("Insert");
    reveal_strlit("Delete");
    reveal_strlit("Right");
    reveal_strlit("Left");
    reveal_strlit("Down");
    reveal_strlit("Up");
    reveal_strlit("PageUp");
    reveal_strlit("PageDown");
}

/// Each key code's name is the name of its variant, as declared (part 3 of the declaration).
pub proof fn lemma_key_names_as_declared_3()
    ensures
        key_name(KeyCode::Home) == "Home"@,
        key_name(KeyCode::End) == "End"@,
        key_name(KeyCode::CapsLock) == "CapsLock"@,
        key_name(KeyCode::ScrollLock) == "ScrollLock"@,
        key_name(KeyCode::NumLock) == "NumLock"@,
        key_name(KeyCode::PrintScreen) == "PrintScreen"@,
        key_name(KeyCode::Pause) == "Pause"@,
        key_name(KeyCode::F1) == "F1"@,
        key_name(KeyCode::F2) == "F2"@,
        key_name(KeyCode::F3) == "F3"@,
        key_name(KeyCode::F4) == "F4"@,
        key_name(KeyCode::F5) == "F5"@,
        key_name(KeyCode::F6) == "F6"@,
        key_name(KeyCode::F7) == "F7"@,
        key_name(KeyCode::F8) == "F8"@,
        key_name(KeyCode::F9) == "F9"@,
        key_name(KeyCode::F10) == "F10"@,
        key_name(KeyCode::F11) == "F11"@,
        key_name(KeyCode::F12) == "F12"@,
        key_name(KeyCode::F13) == "F13"@,
        key_name(KeyCode::F14) == "F14"@,
        key_name(KeyCode::F15) == "F15"@,
        key_name(KeyCode::F16) == "F16"@,
        key_name(KeyCode::F17) == "F17"@,
        key_name(KeyCode::F18) == "F18"@,
        key_name(KeyCode::F19) == "F19"@,
        key_name(KeyCode::F20) == "F20"@,
        key_name(KeyCode::F21) == "F21"@,
        key_name(KeyCode::F22) == "F22"@,
        key_name(KeyCode::F23) == "F23"@,
        key_name(KeyCode::F24) == "F24"@,
{
    reveal_strlit("Home");
    reveal_strlit("End");
    reveal_strlit("CapsLock");
    reveal_strlit("ScrollLock");
    reveal_strlit("NumLock");
    reveal_strlit("PrintScreen");
    reveal_strlit("Pause");
    reveal_strlit("F1");
    reveal_strlit("F2");
    reveal_strlit("F3");
    reveal_strlit("F4");
    reveal_strlit("F5");
    reveal_strlit("F6");
    reveal_strlit("F7");
    reveal_strlit("F8");
    reveal_strlit("F9");
    reveal_strlit("F10");
    reveal_strlit("F11");
    reveal_strlit("F12");
    reveal_strlit("F13");
    reveal_strlit("F14");
    reveal_strlit("F15");
    reveal_strlit("F16");
    reveal_strlit("F17");
    reveal_strlit("F18");
    reveal_strlit("F19");
    reveal_strlit("F20");
    reveal_strlit("F21");
    reveal_strlit("F22");
    reveal_strlit("F23");
    reveal_strlit("F24");
}

/// Each key code's name is the name of its variant, as declared (part 4 of the declaration).
pub proof fn lemma_key_names_as_declared_4()
    ensures
        key_name(KeyCode::F25) == "F25"@,
        key_name(KeyCode::Kp0) == "Kp0"@,
        key_name(KeyCode::Kp1) == "Kp1"@,
        key_name(KeyCode::Kp2) == "Kp2"@,
        key_name(KeyCode::Kp3) == "Kp3"@,
        key_name(KeyCode::Kp4) == "Kp4"@,
        key_name(KeyCode::Kp5) == "Kp5"@,
        key_name(KeyCode::Kp6) == "Kp6"@,
        key_name(KeyCode::Kp7) == "Kp7"@,
        key_name(KeyCode::Kp8) == "Kp8"@,
        key_name(KeyCode::Kp9) == "Kp9"@,
        key_name(KeyCode::KpDecimal) == "KpDecimal"@,
        key_name(KeyCode::KpDivide) == "KpDivide"@,
        key_name(KeyCode::KpMultiply) == "KpMultiply"@,
        key_name(KeyCode::KpSubtract) == "KpSubtract"@,
        key_name(KeyCode::KpAdd) == "KpAdd"@,
        key_name(KeyCode::KpEnter) == "KpEnter"@,
        key_name(KeyCode::KpEqual) == "KpEqual"@,
        key_name(KeyCode::LeftShift) == "LeftShift"@,
        key_name(KeyCode::LeftControl) == "LeftControl"@,
        key_name(KeyCode::LeftAlt) == "LeftAlt"@,
        key_name(KeyCode::LeftSuper) == "LeftSuper"@,
        key_name(KeyCode::RightShift) == "RightShift"@,
        key_name(KeyCode::RightControl) == "RightControl"@,
        key_name(KeyCode::RightAlt) == "RightAlt"@,
        key_name(KeyCode::RightSuper) == "RightSuper"@,
        key_name(KeyCode::Menu) == "Menu"@,
        key_name(KeyCode::Unknown) == "Unknown"@,
{
    reveal_strlit("F25");
    reveal_strlit("Kp0");
    reveal_strlit("Kp1");
    reveal_strlit("Kp2");
    reveal_strlit("Kp3");
    reveal_strlit("Kp4");
    reveal_strlit("Kp5");
    reveal_strlit("Kp6");
    reveal_strlit("Kp7");
    reveal_strlit("Kp8");
    reveal_strlit("Kp9");
    reveal_strlit("KpDecimal");
    reveal_strlit("KpDivide");
    reveal_strlit("KpMultiply");
    reveal_strlit("KpSubtract");
    reveal_strlit("KpAdd");
    reveal_strlit("KpEnter");
    reveal_strlit("KpEqual");
    reveal_strlit("LeftShift");
    reveal_strlit("LeftControl");
    reveal_strlit("LeftAlt");
    reveal_strlit("LeftSuper");
    reveal_strlit("RightShift");
    reveal_strlit("RightControl");
    reveal_strlit("RightAlt");
    reveal_strlit("RightSuper");
    reveal_strlit("Menu");
    reveal_strlit("Unknown");
}

/// The number of key codes.
pub const KEY_CODE_COUNT: u8 = 121;

/// The name of a key code: the name of its variant.
pub open spec fn key_name(key: KeyCode) -> Seq<char> {
    match key {
        KeyCode::Space => seq!['S', 'p', 'a', 'c', 'e'],
        KeyCode::Apostrophe => seq!['A', 'p', 'o', 's', 't', 'r', 'o', 'p', 'h', 'e'],
        KeyCode::Comma => seq!['C', 'o', 'm', 'm', 'a'],
        KeyCode::Minus => seq!['M', 'i', 'n', 'u', 's'],
        KeyCode::Period => seq!['P', 'e', 'r', 'i', 'o', 'd'],
        KeyCode::Slash => seq!['S', 'l', 'a', 's', 'h'],
        KeyCode::Key0 => seq!['K', 'e', 'y', '0'],
        KeyCode::Key1 => seq!['K', 'e', 'y', '1'],
        KeyCode::Key2 => seq!['K', 'e', 'y', '2'],
        KeyCode::Key3 => seq!['K', 'e', 'y', '3'],
        KeyCode::Key4 => seq!['K', 'e', 'y', '4'],
        KeyCode::Key5 => seq!['K', 'e', 'y', '5'],
        KeyCode::Key6 => seq!['K', 'e', 'y', '6'],
        KeyCode::Key7 => seq!['K', 'e', 'y', '7'],
        KeyCode::Key8 => seq!['K', 'e', 'y', '8'],
        KeyCode::Key9 => seq!['K', 'e', 'y', '9'],
        KeyCode::Semicolon => seq!['S', 'e', 'm', 'i', 'c', 'o', 'l', 'o', 'n'],
        KeyCode::Equal => seq!['E', 'q', 'u', 'a', 'l'],
        KeyCode::A => seq!['A'],
        KeyCode::B => seq!['B'],
        KeyCode::C => seq!['C'],
        KeyCode::D => seq!['D'],
        KeyCode::E => seq!['E'],
        KeyCode::F => seq!['F'],
        KeyCode::G => seq!['G'],
        KeyCode::H => seq!['H'],
        KeyCode::I => seq!['I'],
        KeyCode::J => seq!['J'],
        KeyCode::K => seq!['K'],
        KeyCode::L => seq!['L'],
        KeyCode::M => seq!['M'],
        KeyCode::N => seq!['N'],
        KeyCode::O => seq!['O'],
        KeyCode::P => seq!['P'],
        KeyCode::Q => seq!['Q'],
        KeyCode::R => seq!['R'],
        KeyCode::S => seq!['S'],
        KeyCode::T => seq!['T'],
        KeyCode::U => seq!['U'],
        KeyCode::V => seq!['V'],
        KeyCode::W => seq!['W'],
        KeyCode::X => seq!['X'],
        KeyCode::Y => seq!['Y'],
        KeyCode::Z => seq!['Z'],
        KeyCode::LeftBracket => seq!['L', 'e', 'f', 't', 'B', 'r', 'a', 'c', 'k', 'e', 't'],
        KeyCode::Backslash => seq!['B', 'a', 'c', 'k', 's', 'l', 'a', 's', 'h'],
        KeyCode::RightBracket => seq!['R', 'i', 'g', 'h', 't', 'B', 'r', 'a', 'c', 'k', 'e', 't'],
        KeyCode::GraveAccent => seq!['G', 'r', 'a', 'v', 'e', 'A', 'c', 'c', 'e', 'n', 't'],
        KeyCode::World1 => seq!['W', 'o', 'r', 'l', 'd', '1'],
        KeyCode::World2 => seq!['W', 'o', 'r', 'l', 'd', '2'],
        KeyCode::Escape => seq!['E', 's', 'c', 'a', 'p', 'e'],
        KeyCode::Enter => seq!['E', 'n', 't', 'e', 'r'],
        KeyCode::Tab => seq!['T', 'a', 'b'],
        KeyCode::Backspace => seq!['B', 'a', 'c', 'k', 's', 'p', 'a', 'c', 'e'],
        KeyCode::Insert => seq!['I', 'n', 's', 'e', 'r', 't'],
        KeyCode::Delete => seq!['D', 'e', 'l', 'e', 't', 'e'],
        KeyCode::Right => seq!['R', 'i', 'g', 'h', 't'],
        KeyCode::Left => seq!['L', 'e', 'f', 't'],
        KeyCode::Down => seq!['D', 'o', 'w', 'n'],
        KeyCode::Up => seq!['U', 'p'],
        KeyCode::PageUp => seq!['P', 'a', 'g', 'e', 'U', 'p'],
        KeyCode::PageDown => seq!['P', 'a', 'g', 'e', 'D', 'o', 'w', 'n'],
        KeyCode::Home => seq!['H', 'o', 'm', 'e'],
        KeyCode::End => seq!['E', 'n', 'd'],
        KeyCode::CapsLock => seq!['C', 'a', 'p', 's', 'L', 'o', 'c', 'k'],
        KeyCode::ScrollLock => seq!['S', 'c', 'r', 'o', 'l', 'l', 'L', 'o', 'c', 'k'],
        KeyCode::NumLock => seq!['N', 'u', 'm', 'L', 'o', 'c', 'k'],
        KeyCode::PrintScreen => seq!['P', 'r', 'i', 'n', 't', 'S', 'c', 'r', 'e', 'e', 'n'],
        KeyCode::Pause => seq!['P', 'a', 'u', 's', 'e'],
        KeyCode::F1 => seq!['F', '1'],
        KeyCode::F2 => seq!['F', '2'],
        KeyCode::F3 => seq!['F', '3'],
        KeyCode::F4 => seq!['F', '4'],
        KeyCode::F5 => seq!['F', '5'],
        KeyCode::F6 => seq!['F', '6'],
        KeyCode::F7 => seq!['F', '7'],
        KeyCode::F8 => seq!['F', '8'],
        KeyCode::F9 => seq!['F', '9'],
        KeyCode::F10 => seq!['F', '1', '0'],
        KeyCode::F11 => seq!['F', '1', '1'],
        KeyCode::F12 => seq!['F', '1', '2'],
        KeyCode::F13 => seq!['F', '1', '3'],
        KeyCode::F14 => seq!['F', '1', '4'],
        KeyCode::F15 => seq!['F', '1', '5'],
        KeyCode::F16 => seq!['F', '1', '6'],
        KeyCode::F17 => seq!['F', '1', '7'],
        KeyCode::F18 => seq!['F', '1', '8'],
        KeyCode::F19 => seq!['F', '1', '9'],
        KeyCode::F20 => seq!['F', '2', '0'],
        KeyCode::F21 => seq!['F', '2', '1'],
        KeyCode::F22 => seq!['F', '2', '2'],
        KeyCode::F23 => seq!['F', '2', '3'],
        KeyCode::F24 => seq!['F', '2', '4'],
        KeyCode::F25 => seq!['F', '2', '5'],
        KeyCode::Kp0 => seq!['K', 'p', '0'],
        KeyCode::Kp1 => seq!['K', 'p', '1'],
        KeyCode::Kp2 => seq!['K', 'p', '2'],
        KeyCode::Kp3 => seq!['K', 'p', '3'],
        KeyCode::Kp4 => seq!['K', 'p', '4'],
        KeyCode::Kp5 => seq!['K', 'p', '5'],
        KeyCode::Kp6 => seq!['K', 'p', '6'],
        KeyCode::Kp7 => seq!['K', 'p', '7'],
        KeyCode::Kp8 => seq!['K', 'p', '8'],
        KeyCode::Kp9 => seq!['K', 'p', '9'],
        KeyCode::KpDecimal => seq!['K', 'p', 'D', 'e', 'c', 'i', 'm', 'a', 'l'],
        KeyCode::KpDivide => seq!['K', 'p', 'D', 'i', 'v', 'i', 'd', 'e'],
        KeyCode::KpMultiply => seq!['K', 'p', 'M', 'u', 'l', 't', 'i', 'p', 'l', 'y'],
        KeyCode::KpSubtract => seq!['K', 'p', 'S', 'u', 'b', 't', 'r', 'a', 'c', 't'],
        KeyCode::KpAdd => seq!['K', 'p', 'A', 'd', 'd'],
        KeyCode::KpEnter => seq!['K', 'p', 'E', 'n', 't', 'e', 'r'],
        KeyCode::KpEqual => seq!['K', 'p', 'E', 'q', 'u', 'a', 'l'],
        KeyCode::LeftShift => seq!['L', 'e', 'f', 't', 'S', 'h', 'i', 'f', 't'],
        KeyCode::LeftControl => seq!['L', 'e', 'f', 't', 'C', 'o', 'n', 't', 'r', 'o', 'l'],
        KeyCode::LeftAlt => seq!['L', 'e', 'f', 't', 'A', 'l', 't'],
        KeyCode::LeftSuper => seq!['L', 'e', 'f', 't', 'S', 'u', 'p', 'e', 'r'],
        KeyCode::RightShift => seq!['R', 'i', 'g', 'h', 't', 'S', 'h', 'i', 'f', 't'],
        KeyCode::RightControl => seq!['R', 'i', 'g', 'h', 't', 'C', 'o', 'n', 't', 'r', 'o', 'l'],
        KeyCode::RightAlt => seq!['R', 'i', 'g', 'h', 't', 'A', 'l', 't'],
        KeyCode::RightSuper => seq!['R', 'i', 'g', 'h', 't', 'S', 'u', 'p', 'e', 'r'],
        KeyCode::Menu => seq!['M', 'e', 'n', 'u'],
        KeyCode::Unknown => seq!['U', 'n', 'k', 'n', 'o', 'w', 'n'],
    }
}

/// The position of a key code in the declaration order of the key codes.
pub open spec fn key_index(key: KeyCode) -> u8 {
    match key {
        KeyCode::Space => 0,
        KeyCode::Apostrophe => 1,
        KeyCode::Comma => 2,
        KeyCode::Minus => 3,
        KeyCode::Period => 4,
        KeyCode::Slash => 5,
        KeyCode::Key0 => 6,
        KeyCode::Key1 => 7,
        KeyCode::Key2 => 8,
        KeyCode::Key3 => 9,
        KeyCode::Key4 => 10,
        KeyCode::Key5 => 11,
        KeyCode::Key6 => 12,
        KeyCode::Key7 => 13,
        KeyCode::Key8 => 14,
        KeyCode::Key9 => 15,
        KeyCode::Semicolon => 16,
        KeyCode::Equal => 17,
        KeyCode::A => 18,
        KeyCode::B => 19,
        KeyCode::C => 20,
        KeyCode::D => 21,
        KeyCode::E => 22,
        KeyCode::F => 23,
        KeyCode::G => 24,
        KeyCode::H => 25,
        KeyCode::I => 26,
        KeyCode::J => 27,
        KeyCode::K => 28,
        KeyCode::L => 29,
        KeyCode::M => 30,
        KeyCode::N => 31,
        KeyCode::O => 32,
        KeyCode::P => 33,
        KeyCode::Q => 34,
        KeyCode::R => 35,
        KeyCode::S => 36,
        KeyCode::T => 37,
        KeyCode::U => 38,
        KeyCode::V => 39,
        KeyCode::W => 40,
        KeyCode::X => 41,
        KeyCode::Y => 42,
        KeyCode::Z => 43,
        KeyCode::LeftBracket => 44,
        KeyCode::Backslash => 45,
        KeyCode::RightBracket => 46,
        KeyCode::GraveAccent => 47,
        KeyCode::World1 => 48,
        KeyCode::World2 => 49,
        KeyCode::Escape => 50,
        KeyCode::Enter => 51,
        KeyCode::Tab => 52,
        KeyCode::Backspace => 53,
        KeyCode::Insert => 54,
        KeyCode::Delete => 55,
        KeyCode::Right => 56,
        KeyCode::Left => 57,
        KeyCode::Down => 58,
        KeyCode::Up => 59,
        KeyCode::PageUp => 60,
        KeyCode::PageDown => 61,
        KeyCode::Home => 62,
        KeyCode::End => 63,
        KeyCode::CapsLock => 64,
        KeyCode::ScrollLock => 65,
        KeyCode::NumLock => 66,
        KeyCode::PrintScreen => 67,
        KeyCode::Pause => 68,
        KeyCode::F1 => 69,
        KeyCode::F2 => 70,
        KeyCode::F3 => 71,
        KeyCode::F4 => 72,
        KeyCode::F5 => 73,
        KeyCode::F6 => 74,
        KeyCode::F7 => 75,
        KeyCode::F8 => 76,
        KeyCode::F9 => 77,
        KeyCode::F10 => 78,
        KeyCode::F11 => 79,
        KeyCode::F12 => 80,
        KeyCode::F13 => 81,
        KeyCode::F14 => 82,
        KeyCode::F15 => 83,
        KeyCode::F16 => 84,
        KeyCode::F17 => 85,
        KeyCode::F18 => 86,
        KeyCode::F19 => 87,
        KeyCode::F20 => 88,
        KeyCode::F21 => 89,
        KeyCode::F22 => 90,
        KeyCode::F23 => 91,
        KeyCode::F24 => 92,
        KeyCode::F25 => 93,
        KeyCode::Kp0 => 94,
        KeyCode::Kp1 => 95,
        KeyCode::Kp2 => 96,
        KeyCode::Kp3 => 97,
        KeyCode::Kp4 => 98,
        KeyCode::Kp5 => 99,
        KeyCode::Kp6 => 100,
        KeyCode::Kp7 => 101,
        KeyCode::Kp8 => 102,
        KeyCode::Kp9 => 103,
        KeyCode::KpDecimal => 104,
        KeyCode::KpDivide => 105,
        KeyCode::KpMultiply => 106,
        KeyCode::KpSubtract => 107,
        KeyCode::KpAdd => 108,
        KeyCode::KpEnter => 109,
        KeyCode::KpEqual => 110,
        KeyCode::LeftShift => 111,
        KeyCode::LeftControl => 112,
        KeyCode::LeftAlt => 113,
        KeyCode::LeftSuper => 114,
        KeyCode::RightShift => 115,
        KeyCode::RightControl => 116,
        KeyCode::RightAlt => 117,
        KeyCode::RightSuper => 118,
        KeyCode::Menu => 119,
        KeyCode::Unknown => 120,
    }
}

/// The key code at a position in the declaration order of the key codes.
pub open spec fn key_at(index: u8) -> Option<KeyCode> {
    match index {
        0 => Some(KeyCode::Space),
        1 => Some(KeyCode::Apostrophe),
        2 => Some(KeyCode::Comma),
        3 => Some(KeyCode::Minus),
        4 => Some(KeyCode::Period),
        5 => Some(KeyCode::Slash),
        6 => Some(KeyCode::Key0),
        7 => Some(KeyCode::Key1),
        8 => Some(KeyCode::Key2),
        9 => Some(KeyCode::Key3),
        10 => Some(KeyCode::Key4),
        11 => Some(KeyCode::Key5),
        12 => Some(KeyCode::Key6),
        13 => Some(KeyCode::Key7),
        14 => Some(KeyCode::Key8),
        15 => Some(KeyCode::Key9),
        16 => Some(KeyCode::Semicolon),
        17 => Some(KeyCode::Equal),
        18 => Some(KeyCode::A),
        19 => Some(KeyCode::B),
        20 => Some(KeyCode::C),
        21 => Some(KeyCode::D),
        22 => Some(KeyCode::E),
        23 => Some(KeyCode::F),
        24 => Some(KeyCode::G),
        25 => Some(KeyCode::H),
        26 => Some(KeyCode::I),
        27 => Some(KeyCode::J),
        28 => Some(KeyCode::K),
        29 => Some(KeyCode::L),
        30 => Some(KeyCode::M),
        31 => Some(KeyCode::N),
        32 => Some(KeyCode::O),
        33 => Some(KeyCode::P),
        34 => Some(KeyCode::Q),
        35 => Some(KeyCode::R),
        36 => Some(KeyCode::S),
        37 => Some(KeyCode::T),
        38 => Some(KeyCode::U),
        39 => Some(KeyCode::V),
        40 => Some(KeyCode::W),
        41 => Some(KeyCode::X),
        42 => Some(KeyCode::Y),
        43 => Some(KeyCode::Z),
        44 => Some(KeyCode::LeftBracket),
        45 => Some(KeyCode::Backslash),
        46 => Some(KeyCode::RightBracket),
        47 => Some(KeyCode::GraveAccent),
        48 => Some(KeyCode::World1),
        49 => Some(KeyCode::World2),
        50 => Some(KeyCode::Escape),
        51 => Some(KeyCode::Enter),
        52 => Some(KeyCode::Tab),
        53 => Some(KeyCode::Backspace),
        54 => Some(KeyCode::Insert),
        55 => Some(KeyCode::Delete),
        56 => Some(KeyCode::Right),
        57 => Some(KeyCode::Left),
        58 => Some(KeyCode::Down),
        59 => Some(KeyCode::Up),
        60 => Some(KeyCode::PageUp),
        61 => Some(KeyCode::PageDown),
        62 => Some(KeyCode::Home),
        63 => Some(KeyCode::End),
        64 => Some(KeyCode::CapsLock),
        65 => Some(KeyCode::ScrollLock),
        66 => Some(KeyCode::NumLock),
        67 => Some(KeyCode::PrintScreen),
        68 => Some(KeyCode::Pause),
        69 => Some(KeyCode::F1),
        70 => Some(KeyCode::F2),
        71 => Some(KeyCode::F3),
        72 => Some(KeyCode::F4),
        73 => Some(KeyCode::F5),
        74 => Some(KeyCode::F6),
        75 => Some(KeyCode::F7),
        76 => Some(KeyCode::F8),
        77 => Some(KeyCode::F9),
        78 => Some(KeyCode::F10),
        79 => Some(KeyCode::F11),
        80 => Some(KeyCode::F12),
        81 => Some(KeyCode::F13),
        82 => Some(KeyCode::F14),
        83 => Some(KeyCode::F15),
        84 => Some(KeyCode::F16),
        85 => Some(KeyCode::F17),
        86 => Some(KeyCode::F18),
        87 => Some(KeyCode::F19),
        88 => Some(KeyCode::F20),
        89 => Some(KeyCode::F21),
        90 => Some(KeyCode::F22),
        91 => Some(KeyCode::F23),
        92 => Some(KeyCode::F24),
        93 => Some(KeyCode::F25),
        94 => Some(KeyCode::Kp0),
        95 => Some(KeyCode::Kp1),
        96 => Some(KeyCode::Kp2),
        97 => Some(KeyCode::Kp3),
        98 => Some(KeyCode::Kp4),
        99 => Some(KeyCode::Kp5),
        100 => Some(KeyCode::Kp6),
        101 => Some(KeyCode::Kp7),
        102 => Some(KeyCode::Kp8),
        103 => Some(KeyCode::Kp9),
        104 => Some(KeyCode::KpDecimal),
        105 => Some(KeyCode::KpDivide),
        106 => Some(KeyCode::KpMultiply),
        107 => Some(KeyCode::KpSubtract),
        108 => Some(KeyCode::KpAdd),
        109 => Some(KeyCode::KpEnter),
        110 => Some(KeyCode::KpEqual),
        111 => Some(KeyCode::LeftShift),
        112 => Some(KeyCode::LeftControl),
        113 => Some(KeyCode::LeftAlt),
        114 => Some(KeyCode::LeftSuper),
        115 => Some(KeyCode::RightShift),
        116 => Some(KeyCode::RightControl),
        117 => Some(KeyCode::RightAlt),
        118 => Some(KeyCode::RightSuper),
        119 => Some(KeyCode::Menu),
        120 => Some(KeyCode::Unknown),
        _ => None,
    }
}

/// Each key code stands at its own position in the declaration order.
pub proof fn lemma_key_index(key: KeyCode)
    ensures
        key_index(key) < KEY_CODE_COUNT,
        key_at(key_index(key)) == Some(key),
{
}

/// A text with its ASCII letters in lower case.
pub open spec fn ascii_lowercase(s: Seq<char>) -> Seq<char> {
    s.map_values(|c: char| ascii_lower(c))
}

/// The key code whose lower-case name is `s`, told apart by the length of `s` and a few of its
/// characters.
spec fn key_told_apart(s: Seq<char>) -> Option<KeyCode> {
    if s.len() == 5 && s[0] == 's' && s[1] == 'p' && s[2] == 'a' && s[4] == 'e' {
        Some(KeyCode::Space)
    } else if s.len() == 10 && s[0] == 'a' && s[1] == 'p' && s[2] == 'o' && s[9] == 'e' {
        Some(KeyCode::Apostrophe)
    } else if s.len() == 5 && s[0] == 'c' && s[1] == 'o' && s[2] == 'm' && s[4] == 'a' {
        Some(KeyCode::Comma)
    } else if s.len() == 5 && s[0] == 'm' && s[1] == 'i' && s[2] == 'n' && s[4] == 's' {
        Some(KeyCode::Minus)
    } else if s.len() == 6 && s[0] == 'p' && s[1] == 'e' && s[2] == 'r' && s[5] == 'd' {
        Some(KeyCode::Period)
    } else if s.len() == 5 && s[0] == 's' && s[1] == 'l' && s[2] == 'a' && s[4] == 'h' {
        Some(KeyCode::Slash)
    } else if s.len() == 4 && s[0] == 'k' && s[1] == 'e' && s[2] == 'y' && s[3] == '0' {
        Some(KeyCode::Key0)
    } else if s.len() == 4 && s[0] == 'k' && s[1] == 'e' && s[2] == 'y' && s[3] == '1' {
        Some(KeyCode::Key1)
    } else if s.len() == 4 && s[0] == 'k' && s[1] == 'e' && s[2] == 'y' && s[3] == '2' {
        Some(KeyCode::Key2)
    } else if s.len() == 4 && s[0] == 'k' && s[1] == 'e' && s[2] == 'y' && s[3] == '3' {
        Some(KeyCode::Key3)
    } else if s.len() == 4 && s[0] == 'k' && s[1] == 'e' && s[2] == 'y' && s[3] == '4' {
        Some(KeyCode::Key4)
    } else if s.len() == 4 && s[0] == 'k' && s[1] == 'e' && s[2] == 'y' && s[3] == '5' {
        Some(KeyCode::Key5)
    } else if s.len() == 4 && s[0] == 'k' && s[1] == 'e' && s[2] == 'y' && s[3] == '6' {
        Some(KeyCode::Key6)
    } else if s.len() == 4 && s[0] == 'k' && s[1] == 'e' && s[2] == 'y' && s[3] == '7' {
        Some(KeyCode::Key7)
    } else if s.len() == 4 && s[0] == 'k' && s[1] == 'e' && s[2] == 'y' && s[3] == '8' {
        Some(KeyCode::Key8)
    } else if s.len() == 4 && s[0] == 'k' && s[1] == 'e' && s[2] == 'y' && s[3] == '9' {
        Some(KeyCode::Key9)
    } else if s.len() == 9 && s[0] == 's' && s[1] == 'e' && s[2] == 'm' && s[8] == 'n' {
        Some(KeyCode::Semicolon)
    } else if s.len() == 5 && s[0] == 'e' && s[1] == 'q' && s[2] == 'u' && s[4] == 'l' {
        Some(KeyCode::Equal)
    } else if s.len() == 1 && s[0] == 'a' {
        Some(KeyCode::A)
    } else if s.len() == 1 && s[0] == 'b' {
        Some(KeyCode::B)
    } else if s.len() == 1 && s[0] == 'c' {
        Some(KeyCode::C)
    } else if s.len() == 1 && s[0] == 'd' {
        Some(KeyCode::D)
    } else if s.len() == 1 && s[0] == 'e' {
        Some(KeyCode::E)
    } else if s.len() == 1 && s[0] == 'f' {
        Some(KeyCode::F)
    } else if s.len() == 1 && s[0] == 'g' {
        Some(KeyCode::G)
    } else if s.len() == 1 && s[0] == 'h' {
        Some(KeyCode::H)
    } else if s.len() == 1 && s[0] == 'i' {
        Some(KeyCode::I)
    } else if s.len() == 1 && s[0] == 'j' {
        Some(KeyCode::J)
    } else if s.len() == 1 && s[0] == 'k' {
        Some(KeyCode::K)
    } else if s.len() == 1 && s[0] == 'l' {
        Some(KeyCode::L)
    } else if s.len() == 1 && s[0] == 'm' {
        Some(KeyCode::M)
    } else if s.len() == 1 && s[0] == 'n' {
        Some(KeyCode::N)
    } else if s.len() == 1 && s[0] == 'o' {
        Some(KeyCode::O)
    } else if s.len() == 1 && s[0] == 'p' {
        Some(KeyCode::P)
    } else if s.len() == 1 && s[0] == 'q' {
        Some(KeyCode::Q)
    } else if s.len() == 1 && s[0] == 'r' {
        Some(KeyCode::R)
    } else if s.len() == 1 && s[0] == 's' {
        Some(KeyCode::S)
    } else if s.len() == 1 && s[0] == 't' {
        Some(KeyCode::T)
    } else if s.len() == 1 && s[0] == 'u' {
        Some(KeyCode::U)
    } else if s.len() == 1 && s[0] == 'v' {
        Some(KeyCode::V)
    } else if s.len() == 1 && s[0] == 'w' {
        Some(KeyCode::W)
    } else if s.len() == 1 && s[0] == 'x' {
        Some(KeyCode::X)
    } else if s.len() == 1 && s[0] == 'y' {
        Some(KeyCode::Y)
    } else if s.len() == 1 && s[0] == 'z' {
        Some(KeyCode::Z)
    } else if s.len() == 11 && s[0] == 'l' && s[1] == 'e' && s[2] == 'f' && s[10] == 't' {
        Some(KeyCode::LeftBracket)
    } else if s.len() == 9 && s[0] == 'b' && s[1] == 'a' && s[2] == 'c' && s[8] == 'h' {
        Some(KeyCode::Backslash)
    } else if s.len() == 12 && s[0] == 'r' && s[1] == 'i' && s[2] == 'g' && s[11] == 't' {
        Some(KeyCode::RightBracket)
    } else if s.len() == 11 && s[0] == 'g' && s[1] == 'r' && s[2] == 'a' && s[10] == 't' {
        Some(KeyCode::GraveAccent)
    } else if s.len() == 6 && s[0] == 'w' && s[1] == 'o' && s[2] == 'r' && s[5] == '1' {
        Some(KeyCode::World1)
    } else if s.len() == 6 && s[0] == 'w' && s[1] == 'o' && s[2] == 'r' && s[5] == '2' {
        Some(KeyCode::World2)
    } else if s.len() == 6 && s[0] == 'e' && s[1] == 's' && s[2] == 'c' && s[5] == 'e' {
        Some(KeyCode::Escape)
    } else if s.len() == 5 && s[0] == 'e' && s[1] == 'n' && s[2] == 't' && s[4] == 'r' {
        Some(KeyCode::Enter)
    } else if s.len() == 3 && s[0] == 't' && s[1] == 'a' && s[2] == 'b' {
        Some(KeyCode::Tab)
    } else if s.len() == 9 && s[0] == 'b' && s[1] == 'a' && s[2] == 'c' && s[8] == 'e' {
        Some(KeyCode::Backspace)
    } else if s.len() == 6 && s[0] == 'i' && s[1] == 'n' && s[2] == 's' && s[5] == 't' {
        Some(KeyCode::Insert)
    } else if s.len() == 6 && s[0] == 'd' && s[1] == 'e' && s[2] == 'l' && s[5] == 'e' {
        Some(KeyCode::Delete)
    } else if s.len() == 5 && s[0] == 'r' && s[1] == 'i' && s[2] == 'g' && s[4] == 't' {
        Some(KeyCode::Right)
    } else if s.len() == 4 && s[0] == 'l' && s[1] == 'e' && s[2] == 'f' && s[3] == 't' {
        Some(KeyCode::Left)
    } else if s.len() == 4 && s[0] == 'd' && s[1] == 'o' && s[2] == 'w' && s[3] == 'n' {
        Some(KeyCode::Down)
    } else if s.len() == 2 && s[0] == 'u' && s[1] == 'p' {
        Some(KeyCode::Up)
    } else if s.len() == 6 && s[0] == 'p' && s[1] == 'a' && s[2] == 'g' && s[5] == 'p' {
        Some(KeyCode::PageUp)
    } else if s.len() == 8 && s[0] == 'p' && s[1] == 'a' && s[2] == 'g' && s[7] == 'n' {
        Some(KeyCode::PageDown)
    } else if s.len() == 4 && s[0] == 'h' && s[1] == 'o' && s[2] == 'm' && s[3] == 'e' {
        Some(KeyCode::Home)
    } else if s.len() == 3 && s[0] == 'e' && s[1] == 'n' && s[2] == 'd' {
        Some(KeyCode::End)
    } else if s.len() == 8 && s[0] == 'c' && s[1] == 'a' && s[2] == 'p' && s[7] == 'k' {
        Some(KeyCode::CapsLock)
    } else if s.len() == 10 && s[0] == 's' && s[1] == 'c' && s[2] == 'r' && s[9] == 'k' {
        Some(KeyCode::ScrollLock)
    } else if s.len() == 7 && s[0] == 'n' && s[1] == 'u' && s[2] == 'm' && s[6] == 'k' {
        Some(KeyCode::NumLock)
    } else if s.len() == 11 && s[0] == 'p' && s[1] == 'r' && s[2] == 'i' && s[10] == 'n' {
        Some(KeyCode::PrintScreen)
    } else if s.len() == 5 && s[0] == 'p' && s[1] == 'a' && s[2] == 'u' && s[4] == 'e' {
        Some(KeyCode::Pause)
    } else if s.len() == 2 && s[0] == 'f' && s[1] == '1' {
        Some(KeyCode::F1)
    } else if s.len() == 2 && s[0] == 'f' && s[1] == '2' {
        Some(KeyCode::F2)
    } else if s.len() == 2 && s[0] == 'f' && s[1] == '3' {
        Some(KeyCode::F3)
    } else if s.len() == 2 && s[0] == 'f' && s[1] == '4' {
        Some(KeyCode::F4)
    } else if s.len() == 2 && s[0] == 'f' && s[1] == '5' {
        Some(KeyCode::F5)
    } else if s.len() == 2 && s[0] == 'f' && s[1] == '6' {
        Some(KeyCode::F6)
    } else if s.len() == 2 && s[0] == 'f' && s[1] == '7' {
        Some(KeyCode::F7)
    } else if s.len() == 2 && s[0] == 'f' && s[1] == '8' {
        Some(KeyCode::F8)
    } else if s.len() == 2 && s[0] == 'f' && s[1] == '9' {
        Some(KeyCode::F9)
    } else if s.len() == 3 && s[0] == 'f' && s[1] == '1' && s[2] == '0' {
        Some(KeyCode::F10)
    } else if s.len() == 3 && s[0] == 'f' && s[1] == '1' && s[2] == '1' {
        Some(KeyCode::F11)
    } else if s.len() == 3 && s[0] == 'f' && s[1] == '1' && s[2] == '2' {
        Some(KeyCode::F12)
    } else if s.len() == 3 && s[0] == 'f' && s[1] == '1' && s[2] == '3' {
        Some(KeyCode::F13)
    } else if s.len() == 3 && s[0] == 'f' && s[1] == '1' && s[2] == '4' {
        Some(KeyCode::F14)
    } else if s.len() == 3 && s[0] == 'f' && s[1] == '1' && s[2] == '5' {
        Some(KeyCode::F15)
    } else if s.len() == 3 && s[0] == 'f' && s[1] == '1' && s[2] == '6' {
        Some(KeyCode::F16)
    } else if s.len() == 3 && s[0] == 'f' && s[1] == '1' && s[2] == '7' {
        Some(KeyCode::F17)
    } else if s.len() == 3 && s[0] == 'f' && s[1] == '1' && s[2] == '8' {
        Some(KeyCode::F18)
    } else if s.len() == 3 && s[0] == 'f' && s[1] == '1' && s[2] == '9' {
        Some(KeyCode::F19)
    } else if s.len() == 3 && s[0] == 'f' && s[1] == '2' && s[2] == '0' {
        Some(KeyCode::F20)
    } else if s.len() == 3 && s[0] == 'f' && s[1] == '2' && s[2] == '1' {
        Some(KeyCode::F21)
    } else if s.len() == 3 && s[0] == 'f' && s[1] == '2' && s[2] == '2' {
        Some(KeyCode::F22)
    } else if s.len() == 3 && s[0] == 'f' && s[1] == '2' && s[2] == '3' {
        Some(KeyCode::F23)
    } else if s.len() == 3 && s[0] == 'f' && s[1] == '2' && s[2] == '4' {
        Some(KeyCode::F24)
    } else if s.len() == 3 && s[0] == 'f' && s[1] == '2' && s[2] == '5' {
        Some(KeyCode::F25)
    } else if s.len() == 3 && s[0] == 'k' && s[1] == 'p' && s[2] == '0' {
        Some(KeyCode::Kp0)
    } else if s.len() == 3 && s[0] == 'k' && s[1] == 'p' && s[2] == '1' {
        Some(KeyCode::Kp1)
    } else if s.len() == 3 && s[0] == 'k' && s[1] == 'p' && s[2] == '2' {
        Some(KeyCode::Kp2)
    } else if s.len() == 3 && s[0] == 'k' && s[1] == 'p' && s[2] == '3' {
        Some(KeyCode::Kp3)
    } else if s.len() == 3 && s[0] == 'k' && s[1] == 'p' && s[2] == '4' {
        Some(KeyCode::Kp4)
    } else if s.len() == 3 && s[0] == 'k' && s[1] == 'p' && s[2] == '5' {
        Some(KeyCode::Kp5)
    } else if s.len() == 3 && s[0] == 'k' && s[1] == 'p' && s[2] == '6' {
        Some(KeyCode::Kp6)
    } else if s.len() == 3 && s[0] == 'k' && s[1] == 'p' && s[2] == '7' {
        Some(KeyCode::Kp7)
    } else if s.len() == 3 && s[0] == 'k' && s[1] == 'p' && s[2] == '8' {
        Some(KeyCode::Kp8)
    } else if s.len() == 3 && s[0] == 'k' && s[1] == 'p' && s[2] == '9' {
        Some(KeyCode::Kp9)
    } else if s.len() == 9 && s[0] == 'k' && s[1] == 'p' && s[2] == 'd' && s[8] == 'l' {
        Some(KeyCode::KpDecimal)
    } else if s.len() == 8 && s[0] == 'k' && s[1] == 'p' && s[2] == 'd' && s[7] == 'e' {
        Some(KeyCode::KpDivide)
    } else if s.len() == 10 && s[0] == 'k' && s[1] == 'p' && s[2] == 'm' && s[9] == 'y' {
        Some(KeyCode::KpMultiply)
    } else if s.len() == 10 && s[0] == 'k' && s[1] == 'p' && s[2] == 's' && s[9] == 't' {
        Some(KeyCode::KpSubtract)
    } else if s.len() == 5 && s[0] == 'k' && s[1] == 'p' && s[2] == 'a' && s[4] == 'd' {
        Some(KeyCode::KpAdd)
    } else if s.len() == 7 && s[0] == 'k' && s[1] == 'p' && s[2] == 'e' && s[6] == 'r' {
        Some(KeyCode::KpEnter)
    } else if s.len() == 7 && s[0] == 'k' && s[1] == 'p' && s[2] == 'e' && s[6] == 'l' {
        Some(KeyCode::KpEqual)
    } else if s.len() == 9 && s[0] == 'l' && s[1] == 'e' && s[2] == 'f' && s[8] == 't' {
        Some(KeyCode::LeftShift)
    } else if s.len() == 11 && s[0] == 'l' && s[1] == 'e' && s[2] == 'f' && s[10] == 'l' {
        Some(KeyCode::LeftControl)
    } else if s.len() == 7 && s[0] == 'l' && s[1] == 'e' && s[2] == 'f' && s[6] == 't' {
        Some(KeyCode::LeftAlt)
    } else if s.len() == 9 && s[0] == 'l' && s[1] == 'e' && s[2] == 'f' && s[8] == 'r' {
        Some(KeyCode::LeftSuper)
    } else if s.len() == 10 && s[0] == 'r' && s[1] == 'i' && s[2] == 'g' && s[9] == 't' {
        Some(KeyCode::RightShift)
    } else if s.len() == 12 && s[0] == 'r' && s[1] == 'i' && s[2] == 'g' && s[11] == 'l' {
        Some(KeyCode::RightControl)
    } else if s.len() == 8 && s[0] == 'r' && s[1] == 'i' && s[2] == 'g' && s[7] == 't' {
        Some(KeyCode::RightAlt)
    } else if s.len() == 10 && s[0] == 'r' && s[1] == 'i' && s[2] == 'g' && s[9] == 'r' {
        Some(KeyCode::RightSuper)
    } else if s.len() == 4 && s[0] == 'm' && s[1] == 'e' && s[2] == 'n' && s[3] == 'u' {
        Some(KeyCode::Menu)
    } else if s.len() == 7 && s[0] == 'u' && s[1] == 'n' && s[2] == 'k' && s[6] == 'n' {
        Some(KeyCode::Unknown)
    } else {
        None
    }
}

/// A key code's lower-case name tells it apart from the others.
#[verifier::rlimit(50)]
proof fn lemma_lowercase_name_tells_key(key: KeyCode)
    ensures
        key_told_apart(ascii_lowercase(key_name(key))) == Some(key),
{
}

/// No two key codes have names that are equal without regard to ASCII case, so a key code's
/// name parses back to that key code.
pub proof fn lemma_key_names_identify_keys(a: KeyCode, b: KeyCode)
    requires
        eq_ignoring_ascii_case(key_name(a), key_name(b)),
    ensures
        a == b,
{
    assert(ascii_lowercase(key_name(a)) =~= ascii_lowercase(key_name(b)));
    lemma_lowercase_name_tells_key(a);
    lemma_lowercase_name_tells_key(b);
}

/// Two key codes whose names both match one text, without regard to ASCII case, are the same.
pub proof fn lemma_names_matching_one_text(a: KeyCode, b: KeyCode, text: Seq<char>)
    requires
        eq_ignoring_ascii_case(key_name(a), text),
        eq_ignoring_ascii_case(key_name(b), text),
    ensures
        a == b,
{
    assert(eq_ignoring_ascii_case(key_name(a), key_name(b)));
    lemma_key_names_identify_keys(a, b);
}

/// The error of parsing a key code from a name that is no key code's name.
#[derive(Debug, Copy, Clone, PartialEq, Eq, Structural)]
pub struct ParseKeyCodeError;

impl KeyCode {
    /// The name of the key code: the name of its variant.
    pub fn name(&self) -> (name: &'static str)
        ensures
            name@ == key_name(*self),
    {
        match self {
            KeyCode::Space => {
                proof {
                    reveal_strlit("Space");
                }
                "Space"
            },
            KeyCode::Apostrophe => {
                proof {
                    reveal_strlit("Apostrophe");
                }
                "Apostrophe"
            },
            KeyCode::Comma => {
                proof {
                    reveal_strlit("Comma");
                }
                "Comma"
            },
            KeyCode::Minus => {
                proof {
                    reveal_strlit("Minus");
                }
                "Minus"
            },
            KeyCode::Period => {
                proof {
                    reveal_strlit("Period");
                }
                "Period"
            },
            KeyCode::Slash => {
                proof {
                    reveal_strlit("Slash");
                }
                "Slash"
            },
            KeyCode::Key0 => {
                proof {
                    reveal_strlit("Key0");
                }
                "Key0"
            },
            KeyCode::Key1 => {
                proof {
                    reveal_strlit("Key1");
                }
                "Key1"
            },
            KeyCode::Key2 => {
                proof {
                    reveal_strlit("Key2");
                }
                "Key2"
            },
            KeyCode::Key3 => {
                proof {
                    reveal_strlit("Key3");
                }
                "Key3"
            },
            KeyCode::Key4 => {
                proof {
                    reveal_strlit("Key4");
                }
                "Key4"
            },
            KeyCode::Key5 => {
                proof {
                    reveal_strlit("Key5");
                }
                "Key5"
            },
            KeyCode::Key6 => {
                proof {
                    reveal_strlit("Key6");
                }
                "Key6"
            },
            KeyCode::Key7 => {
                proof {
                    reveal_strlit("Key7");
                }
                "Key7"
            },
            KeyCode::Key8 => {
                proof {
                    reveal_strlit("Key8");
                }
                "Key8"
            },
            KeyCode::Key9 => {
                proof {
                    reveal_strlit("Key9");
                }
                "Key9"
            },
            KeyCode::Semicolon => {
                proof {
                    reveal_strlit("Semicolon");
                }
                "Semicolon"
            },
            KeyCode::Equal => {
                proof {
                    reveal_strlit("Equal");
                }
                "Equal"
            },
            KeyCode::A => {
                proof {
                    reveal_strlit("A");
                }
                "A"
            },
            KeyCode::B => {
                proof {
                    reveal_strlit("B");
                }
                "B"
            },
            KeyCode::C => {
                proof {
                    reveal_strlit("C");
                }
                "C"
            },
            KeyCode::D => {
                proof {
                    reveal_strlit("D");
                }
                "D"
            },
            KeyCode::E => {
                proof {
                    reveal_strlit("E");
                }
                "E"
            },
            KeyCode::F => {
                proof {
                    reveal_strlit("F");
                }
                "F"
            },
            KeyCode::G => {
                proof {
                    reveal_strlit("G");
                }
                "G"
            },
            KeyCode::H => {
                proof {
                    reveal_strlit("H");
                }
                "H"
            },
            KeyCode::I => {
                proof {
                    reveal_strlit("I");
                }
                "I"
            },
            KeyCode::J => {
                proof {
                    reveal_strlit("J");
                }
                "J"
            },
            KeyCode::K => {
                proof {
                    reveal_strlit("K");
                }
                "K"
            },
            KeyCode::L => {
                proof {
                    reveal_strlit("L");
                }
                "L"
            },
            KeyCode::M => {
                proof {
                    reveal_strlit("M");
                }
                "M"
            },
            KeyCode::N => {
                proof {
                    reveal_strlit("N");
                }
                "N"
            },
            KeyCode::O => {
                proof {
                    reveal_strlit("O");
                }
                "O"
            },
            KeyCode::P => {
                proof {
                    reveal_strlit("P");
                }
                "P"
            },
            KeyCode::Q => {
                proof {
                    reveal_strlit("Q");
                }
                "Q"
            },
            KeyCode::R => {
                proof {
                    reveal_strlit("R");
                }
                "R"
            },
            KeyCode::S => {
                proof {
                    reveal_strlit("S");
                }
                "S"
            },
            KeyCode::T => {
                proof {
                    reveal_strlit("T");
                }
                "T"
            },
            KeyCode::U => {
                proof {
                    reveal_strlit("U");
                }
                "U"
            },
            KeyCode::V => {
                proof {
                    reveal_strlit("V");
                }
                "V"
            },
            KeyCode::W => {
                proof {
                    reveal_strlit("W");
                }
                "W"
            },
            KeyCode::X => {
                proof {
                    reveal_strlit("X");
                }
                "X"
            },
            KeyCode::Y => {
                proof {
                    reveal_strlit("Y");
                }
                "Y"
            },
            KeyCode::Z => {
                proof {
                    reveal_strlit("Z");
                }
                "Z"
            },
            KeyCode::LeftBracket => {
                proof {
                    reveal_strlit("LeftBracket");
                }
                "LeftBracket"
            },
            KeyCode::Backslash => {
                proof {
                    reveal_strlit("Backslash");
                }
                "Backslash"
            },
            KeyCode::RightBracket => {
                proof {
                    reveal_strlit("RightBracket");
                }
                "RightBracket"
            },
            KeyCode::GraveAccent => {
                proof {
                    reveal_strlit("GraveAccent");
                }
                "GraveAccent"
            },
            KeyCode::World1 => {
                proof {
                    reveal_strlit("World1");
                }
                "World1"
            },
            KeyCode::World2 => {
                proof {
                    reveal_strlit("World2");
                }
                "World2"
            },
            KeyCode::Escape => {
                proof {
                    reveal_strlit("Escape");
                }
                "Escape"
            },
            KeyCode::Enter => {
                proof {
                    reveal_strlit("Enter");
                }
                "Enter"
            },
            KeyCode::Tab => {
                proof {
                    reveal_strlit("Tab");
                }
                "Tab"
            },
            KeyCode::Backspace => {
                proof {
                    reveal_strlit("Backspace");
                }
                "Backspace"
            },
            KeyCode::Insert => {
                proof {
                    reveal_strlit("Insert");
                }
                "Insert"
            },
            KeyCode::Delete => {
                proof {
                    reveal_strlit("Delete");
                }
                "Delete"
            },
            KeyCode::Right => {
                proof {
                    reveal_strlit("Right");
                }
                "Right"
            },
            KeyCode::Left => {
                proof {
                    reveal_strlit("Left");
                }
                "Left"
            },
            KeyCode::Down => {
                proof {
                    reveal_strlit("Down");
                }
                "Down"
            },
            KeyCode::Up => {
                proof {
                    reveal_strlit("Up");
                }
                "Up"
            },
            KeyCode::PageUp => {
                proof {
                    reveal_strlit("PageUp");
                }
                "PageUp"
            },
            KeyCode::PageDown => {
                proof {
                    reveal_strlit("PageDown");
                }
                "PageDown"
            },
            KeyCode::Home => {
                proof {
                    reveal_strlit("Home");
                }
                "Home"
            },
            KeyCode::End => {
                proof {
                    reveal_strlit("End");
                }
                "End"
            },
            KeyCode::CapsLock => {
                proof {
                    reveal_strlit("CapsLock");
                }
                "CapsLock"
            },
            KeyCode::ScrollLock => {
                proof {
                    reveal_strlit("ScrollLock");
                }
                "ScrollLock"
            },
            KeyCode::NumLock => {
                proof {
                    reveal_strlit("NumLock");
                }
                "NumLock"
            },
            KeyCode::PrintScreen => {
                proof {
                    reveal_strlit("PrintScreen");
                }
                "PrintScreen"
            },
            KeyCode::Pause => {
                proof {
                    reveal_strlit("Pause");
                }
                "Pause"
            },
            KeyCode::F1 => {
                proof {
                    reveal_strlit("F1");
                }
                "F1"
            },
            KeyCode::F2 => {
                proof {
                    reveal_strlit("F2");
                }
                "F2"
            },
            KeyCode::F3 => {
                proof {
                    reveal_strlit("F3");
                }
                "F3"
            },
            KeyCode::F4 => {
                proof {
                    reveal_strlit("F4");
                }
                "F4"
            },
            KeyCode::F5 => {
                proof {
                    reveal_strlit("F5");
                }
                "F5"
            },
            KeyCode::F6 => {
                proof {
                    reveal_strlit("F6");
                }
                "F6"
            },
            KeyCode::F7 => {
                proof {
                    reveal_strlit("F7");
                }
                "F7"
            },
            KeyCode::F8 => {
                proof {
                    reveal_strlit("F8");
                }
                "F8"
            },
            KeyCode::F9 => {
                proof {
                    reveal_strlit("F9");
                }
                "F9"
            },
            KeyCode::F10 => {
                proof {
                    reveal_strlit("F10");
                }
                "F10"
            },
            KeyCode::F11 => {
                proof {
                    reveal_strlit("F11");
                }
                "F11"
            },
            KeyCode::F12 => {
                proof {
                    reveal_strlit("F12");
                }
                "F12"
            },
            KeyCode::F13 => {
                proof {
                    reveal_strlit("F13");
                }
                "F13"
            },
            KeyCode::F14 => {
                proof {
                    reveal_strlit("F14");
                }
                "F14"
            },
            KeyCode::F15 => {
                proof {
                    reveal_strlit("F15");
                }
                "F15"
            },
            KeyCode::F16 => {
                proof {
                    reveal_strlit("F16");
                }
                "F16"
            },
            KeyCode::F17 => {
                proof {
                    reveal_strlit("F17");
                }
                "F17"
            },
            KeyCode::F18 => {
                proof {
                    reveal_strlit("F18");
                }
                "F18"
            },
            KeyCode::F19 => {
                proof {
                    reveal_strlit("F19");
                }
                "F19"
            },
            KeyCode::F20 => {
                proof {
                    reveal_strlit("F20");
                }
                "F20"
            },
            KeyCode::F21 => {
                proof {
                    reveal_strlit("F21");
                }
                "F21"
            },
            KeyCode::F22 => {
                proof {
                    reveal_strlit("F22");
                }
                "F22"
            },
            KeyCode::F23 => {
                proof {
                    reveal_strlit("F23");
                }
                "F23"
            },
            KeyCode::F24 => {
                proof {
                    reveal_strlit("F24");
                }
                "F24"
            },
            KeyCode::F25 => {
                proof {
                    reveal_strlit("F25");
                }
                "F25"
            },
            KeyCode::Kp0 => {
                proof {
                    reveal_strlit("Kp0");
                }
                "Kp0"
            },
            KeyCode::Kp1 => {
                proof {
                    reveal_strlit("Kp1");
                }
                "Kp1"
            },
            KeyCode::Kp2 => {
                proof {
                    reveal_strlit("Kp2");
                }
                "Kp2"
            },
            KeyCode::Kp3 => {
                proof {
                    reveal_strlit("Kp3");
                }
                "Kp3"
            },
            KeyCode::Kp4 => {
                proof {
                    reveal_strlit("Kp4");
                }
                "Kp4"
            },
            KeyCode::Kp5 => {
                proof {
                    reveal_strlit("Kp5");
                }
                "Kp5"
            },
            KeyCode::Kp6 => {
                proof {
                    reveal_strlit("Kp6");
                }
                "Kp6"
            },
            KeyCode::Kp7 => {
                proof {
                    reveal_strlit("Kp7");
                }
                "Kp7"
            },
            KeyCode::Kp8 => {
                proof {
                    reveal_strlit("Kp8");
                }
                "Kp8"
            },
            KeyCode::Kp9 => {
                proof {
                    reveal_strlit("Kp9");
                }
                "Kp9"
            },
            KeyCode::KpDecimal => {
                proof {
                    reveal_strlit("KpDecimal");
                }
                "KpDecimal"
            },
            KeyCode::KpDivide => {
                proof {
                    reveal_strlit("KpDivide");
                }
                "KpDivide"
            },
            KeyCode::KpMultiply => {
                proof {
                    reveal_strlit("KpMultiply");
                }
                "KpMultiply"
            },
            KeyCode::KpSubtract => {
                proof {
                    reveal_strlit("KpSubtract");
                }
                "KpSubtract"
            },
            KeyCode::KpAdd => {
                proof {
                    reveal_strlit("KpAdd");
                }
                "KpAdd"
            },
            KeyCode::KpEnter => {
                proof {
                    reveal_strlit("KpEnter");
                }
                "KpEnter"
            },
            KeyCode::KpEqual => {
                proof {
                    reveal_strlit("KpEqual");
                }
                "KpEqual"
            },
            KeyCode::LeftShift => {
                proof {
                    reveal_strlit("LeftShift");
                }
                "LeftShift"
            },
            KeyCode::LeftControl => {
                proof {
                    reveal_strlit("LeftControl");
                }
                "LeftControl"
            },
            KeyCode::LeftAlt => {
                proof {
                    reveal_strlit("LeftAlt");
                }
                "LeftAlt"
            },
            KeyCode::LeftSuper => {
                proof {
                    reveal_strlit("LeftSuper");
                }
                "LeftSuper"
            },
            KeyCode::RightShift => {
                proof {
                    reveal_strlit("RightShift");
                }
                "RightShift"
            },
            KeyCode::RightControl => {
                proof {
                    reveal_strlit("RightControl");
                }
                "RightControl"
            },
            KeyCode::RightAlt => {
                proof {
                    reveal_strlit("RightAlt");
                }
                "RightAlt"
            },
            KeyCode::RightSuper => {
                proof {
                    reveal_strlit("RightSuper");
                }
                "RightSuper"
            },
            KeyCode::Menu => {
                proof {
                    reveal_strlit("Menu");
                }
                "Menu"
            },
            KeyCode::Unknown => {
                proof {
                    reveal_strlit("Unknown");
                }
                "Unknown"
            },
        }
    }

    /// The key code at a position in the declaration order of the key codes.
    fn at(index: u8) -> (key: Option<KeyCode>)
        ensures
            key == key_at(index),
    {
        match index {
            0 => Some(KeyCode::Space),
            1 => Some(KeyCode::Apostrophe),
            2 => Some(KeyCode::Comma),
            3 => Some(KeyCode::Minus),
            4 => Some(KeyCode::Period),
            5 => Some(KeyCode::Slash),
            6 => Some(KeyCode::Key0),
            7 => Some(KeyCode::Key1),
            8 => Some(KeyCode::Key2),
            9 => Some(KeyCode::Key3),
            10 => Some(KeyCode::Key4),
            11 => Some(KeyCode::Key5),
            12 => Some(KeyCode::Key6),
            13 => Some(KeyCode::Key7),
            14 => Some(KeyCode::Key8),
            15 => Some(KeyCode::Key9),
            16 => Some(KeyCode::Semicolon),
            17 => Some(KeyCode::Equal),
            18 => Some(KeyCode::A),
            19 => Some(KeyCode::B),
            20 => Some(KeyCode::C),
            21 => Some(KeyCode::D),
            22 => Some(KeyCode::E),
            23 => Some(KeyCode::F),
            24 => Some(KeyCode::G),
            25 => Some(KeyCode::H),
            26 => Some(KeyCode::I),
            27 => Some(KeyCode::J),
            28 => Some(KeyCode::K),
            29 => Some(KeyCode::L),
            30 => Some(KeyCode::M),
            31 => Some(KeyCode::N),
            32 => Some(KeyCode::O),
            33 => Some(KeyCode::P),
            34 => Some(KeyCode::Q),
            35 => Some(KeyCode::R),
            36 => Some(KeyCode::S),
            37 => Some(KeyCode::T),
            38 => Some(KeyCode::U),
            39 => Some(KeyCode::V),
            40 => Some(KeyCode::W),
            41 => Some(KeyCode::X),
            42 => Some(KeyCode::Y),
            43 => Some(KeyCode::Z),
            44 => Some(KeyCode::LeftBracket),
            45 => Some(KeyCode::Backslash),
            46 => Some(KeyCode::RightBracket),
            47 => Some(KeyCode::GraveAccent),
            48 => Some(KeyCode::World1),
            49 => Some(KeyCode::World2),
            50 => Some(KeyCode::Escape),
            51 => Some(KeyCode::Enter),
            52 => Some(KeyCode::Tab),
            53 => Some(KeyCode::Backspace),
            54 => Some(KeyCode::Insert),
            55 => Some(KeyCode::Delete),
            56 => Some(KeyCode::Right),
            57 => Some(KeyCode::Left),
            58 => Some(KeyCode::Down),
            59 => Some(KeyCode::Up),
            60 => Some(KeyCode::PageUp),
            61 => Some(KeyCode::PageDown),
            62 => Some(KeyCode::Home),
            63 => Some(KeyCode::End),
            64 => Some(KeyCode::CapsLock),
            65 => Some(KeyCode::ScrollLock),
            66 => Some(KeyCode::NumLock),
            67 => Some(KeyCode::PrintScreen),
            68 => Some(KeyCode::Pause),
            69 => Some(KeyCode::F1),
            70 => Some(KeyCode::F2),
            71 => Some(KeyCode::F3),
            72 => Some(KeyCode::F4),
            73 => Some(KeyCode::F5),
            74 => Some(KeyCode::F6),
            75 => Some(KeyCode::F7),
            76 => Some(KeyCode::F8),
            77 => Some(KeyCode::F9),
            78 => Some(KeyCode::F10),
            79 => Some(KeyCode::F11),
            80 => Some(KeyCode::F12),
            81 => Some(KeyCode::F13),
            82 => Some(KeyCode::F14),
            83 => Some(KeyCode::F15),
            84 => Some(KeyCode::F16),
            85 => Some(KeyCode::F17),
            86 => Some(KeyCode::F18),
            87 => Some(KeyCode::F19),
            88 => Some(KeyCode::F20),
            89 => Some(KeyCode::F21),
            90 => Some(KeyCode::F22),
            91 => Some(KeyCode::F23),
            92 => Some(KeyCode::F24),
            93 => Some(KeyCode::F25),
            94 => Some(KeyCode::Kp0),
            95 => Some(KeyCode::Kp1),
            96 => Some(KeyCode::Kp2),
            97 => Some(KeyCode::Kp3),
            98 => Some(KeyCode::Kp4),
            99 => Some(KeyCode::Kp5),
            100 => Some(KeyCode::Kp6),
            101 => Some(KeyCode::Kp7),
            102 => Some(KeyCode::Kp8),
            103 => Some(KeyCode::Kp9),
            104 => Some(KeyCode::KpDecimal),
            105 => Some(KeyCode::KpDivide),
            106 => Some(KeyCode::KpMultiply),
            107 => Some(KeyCode::KpSubtract),
            108 => Some(KeyCode::KpAdd),
            109 => Some(KeyCode::KpEnter),
            110 => Some(KeyCode::KpEqual),
            111 => Some(KeyCode::LeftShift),
            112 => Some(KeyCode::LeftControl),
            113 => Some(KeyCode::LeftAlt),
            114 => Some(KeyCode::LeftSuper),
            115 => Some(KeyCode::RightShift),
            116 => Some(KeyCode::RightControl),
            117 => Some(KeyCode::RightAlt),
            118 => Some(KeyCode::RightSuper),
            119 => Some(KeyCode::Menu),
            120 => Some(KeyCode::Unknown),
            _ => None,
        }
    }

    /// The key code with the given name, compared without regard to ASCII case: the first in
    /// declaration order whose name matches, or `None` if none does.
    pub fn from_name(name: &str) -> (key: Option<KeyCode>)
        ensures
            key matches Some(k) ==> eq_ignoring_ascii_case(key_name(k), name@),
            key matches Some(k) ==> forall|j: u8|
                j < key_index(k) ==> !eq_ignoring_ascii_case(
                    key_name(#[trigger] key_at(j)->0),
                    name@,
                ),
            key is None ==> forall|k: KeyCode|
                !eq_ignoring_ascii_case(#[trigger] key_name(k), name@),
            forall|k: KeyCode| eq_ignoring_ascii_case(#[trigger] key_name(k), name@) ==> key == Some(k),
    {
        let mut i: u8 = 0;
        while i < KEY_CODE_COUNT
            invariant
                i <= KEY_CODE_COUNT,
                forall|j: u8|
                    j < i ==> !eq_ignoring_ascii_case(
                        key_name(#[trigger] key_at(j)->0),
                        name@,
                    ),
            decreases KEY_CODE_COUNT - i,
        {
            let key = KeyCode::at(i).unwrap();
            if str_eq_ignore_ascii_case(key.name(), name) {
                proof {
                    lemma_key_index(key);
                    assert forall|k: KeyCode| eq_ignoring_ascii_case(
                        #[trigger] key_name(k),
                        name@,
                    ) implies k == key by {
                        lemma_names_matching_one_text(k, key, name@);
                    }
                }
                return Some(key);
            }
            i = i + 1;
        }
        proof {
            assert forall|k: KeyCode| !eq_ignoring_ascii_case(#[trigger] key_name(k), name@) by {
                lemma_key_index(k);
                assert(key_at(key_index(k))->0 == k);
            }
        }
        None
    }
}

impl std::str::FromStr for KeyCode {
    type Err = ParseKeyCodeError;

    /// Parses a key code from its name, without regard to ASCII case: the key code whose name
    /// matches, or an error if none does.
    fn from_str(s: &str) -> (parsed: Result<KeyCode, ParseKeyCodeError>)
        ensures
            forall|k: KeyCode|
                eq_ignoring_ascii_case(#[trigger] key_name(k), s@) ==> parsed == Ok::<
                    KeyCode,
                    ParseKeyCodeError,
                >(k),
            parsed matches Ok(k) ==> eq_ignoring_ascii_case(key_name(k), s@),
    {
        match KeyCode::from_name(s) {
            Some(key) => Ok(key),
            None => Err(ParseKeyCodeError),
        }
    }
}

/// Key modifiers which could be active when a key is pressed.
#[derive(Debug, Copy, Clone, PartialEq, Eq, Hash, Default, Structural)]
pub struct KeyMods {
    /// The left/right "shift" keys.
    pub shift: bool,
    /// The "control" key.
    pub ctrl: bool,
    /// The "alt" key.
    pub alt: bool,
    /// The "command" or "clover"/Apple key on a mac.
    pub logo: bool,
}

/// Supported mouse buttons.
#[derive(Debug, Copy, Clone, PartialEq, Eq, Hash, Structural)]
pub enum MouseButton {
    Left,
    Right,
    Middle,
    Unknown,
}

/// Supported gamepad buttons.
#[derive(Debug, Copy, Clone, PartialEq, Eq, Hash, PartialOrd, Ord, Structural)]
pub enum GamepadButton {
    South, East, North, West, C, Z, LeftTrigger, LeftTrigger2,
    RightTrigger, RightTrigger2, Select, Start, Mode, LeftThumb, RightThumb, DPadUp,
    DPadDown, DPadLeft, DPadRight, Unknown,
}

/// Supported gamepad axes. The DPads of a gamepad can also be read as axes.
#[derive(Debug, Copy, Clone, PartialEq, Eq, Hash, PartialOrd, Ord, Structural)]
pub enum GamepadAxis {
    LeftStickX, LeftStickY, LeftZ, RightStickX, RightStickY, RightZ, DPadX, DPadY,
    Unknown,
}

/// Supported cursor icons.
#[derive(Debug, Copy, Clone, PartialEq, Eq, Hash, Structural)]
pub enum CursorIcon {
    Default, Help, Pointer, Wait, Crosshair, Text, Move, NotAllowed,
    EWResize, NSResize, NESWResize, NWSEResize,
}

/// A physical input that can be bound to a logical axis or button.
#[derive(Debug, Copy, Clone, PartialEq, Eq, Hash, Structural)]
pub enum InputType {
    Key(KeyCode),
    GamepadButton(GamepadButton),
    GamepadAxis(GamepadAxis),
    MouseButton(MouseButton),
}

/// A point on the screen, each coordinate kept as the bit pattern of its 32-bit IEEE 754 value.
#[derive(Debug, Copy, Clone)]
pub struct PointBits {
    pub x: u32,
    pub y: u32,
}

/// Whether the 32-bit IEEE 754 value with this bit pattern is not a number: all exponent bits
/// set and a fraction that is not zero.
pub open spec fn is_nan_bits(bits: u32) -> bool {
    (bits & 0x7f80_0000u32) == 0x7f80_0000u32 && (bits & 0x007f_ffffu32) != 0
}

/// Whether two 32-bit IEEE 754 values, given by their bit patterns, compare equal as floats:
/// neither is not a number, and they have the same bits or are both zero (of either sign).
pub open spec fn float_bits_eq(a: u32, b: u32) -> bool {
    !is_nan_bits(a) && !is_nan_bits(b) && (a == b || ((a | b) & 0x7fff_ffffu32) == 0)
}

/// Whether two 32-bit IEEE 754 values, given by their bit patterns, compare equal as floats.
pub fn float_bits_equal(a: u32, b: u32) -> (same: bool)
    ensures
        same == float_bits_eq(a, b),
{
    let a_nan = (a & 0x7f80_0000u32) == 0x7f80_0000u32 && (a & 0x007f_ffffu32) != 0;
    let b_nan = (b & 0x7f80_0000u32) == 0x7f80_0000u32 && (b & 0x007f_ffffu32) != 0;
    !a_nan && !b_nan && (a == b || ((a | b) & 0x7fff_ffffu32) == 0)
}

/// Whether two points compare equal: both coordinates compare equal as floats.
pub open spec fn points_eq(p: PointBits, q: PointBits) -> bool {
    float_bits_eq(p.x, q.x) && float_bits_eq(p.y, q.y)
}

impl PartialEq for PointBits {
    /// Two points are equal when their coordinates compare equal as floats.
    fn eq(&self, other: &Self) -> (same: bool) {
        float_bits_equal(self.x, other.x) && float_bits_equal(self.y, other.y)
    }
}

impl PartialEqSpecImpl for PointBits {
    open spec fn obeys_eq_spec() -> bool {
        true
    }

    open spec fn eq_spec(&self, other: &Self) -> bool {
        points_eq(*self, *other)
    }
}

/// The bit pattern of the 32-bit IEEE 754 value `1.0`, the factor of an axis bound to a gamepad
/// axis.
pub const ONE_BITS: u32 = 0x3f80_0000u32;

/// The bit pattern of the 32-bit IEEE 754 value `-1.0`.
pub const MINUS_ONE_BITS: u32 = 0xbf80_0000u32;

/// A single input event acting on a logical axis or button.
#[derive(Debug, Copy)]
pub enum InputEffect<Axes, Buttons> {
    /// An event setting an axis's position (given by its bit pattern).
    Axis(Axes, u32),
    /// An event indicating a button was pressed or released, along with a possible associated
    /// point (if it's a mouse click or such).
    Button(Buttons, Option<PointBits>),
    /// An event indicating the mouse was moved, and where it was moved to.
    Cursor(PointBits),
}

/// Whether two optional points are both absent, or both there and equal.
pub open spec fn locations_eq(p: Option<PointBits>, q: Option<PointBits>) -> bool {
    match (p, q) {
        (Some(p), Some(q)) => points_eq(p, q),
        (None, None) => true,
        _ => false,
    }
}

impl<Axes: PartialEq, Buttons: PartialEq> PartialEq for InputEffect<Axes, Buttons> {
    /// Two effects are equal when they are of the same kind on equal axes or buttons, and their
    /// positions compare equal as floats.
    fn eq(&self, other: &Self) -> (same: bool) {
        match (self, other) {
            (InputEffect::Axis(a, x), InputEffect::Axis(b, y)) => a.eq(b) && float_bits_equal(*x, *y),
            (InputEffect::Button(a, p), InputEffect::Button(b, q)) => a.eq(b) && match (p, q) {
                (Some(p), Some(q)) => p.eq(q),
                (None, None) => true,
                _ => false,
            },
            (InputEffect::Cursor(p), InputEffect::Cursor(q)) => p.eq(q),
            _ => false,
        }
    }
}

impl<Axes: PartialEq, Buttons: PartialEq> PartialEqSpecImpl for InputEffect<Axes, Buttons> {
    open spec fn obeys_eq_spec() -> bool {
        Axes::obeys_eq_spec() && Buttons::obeys_eq_spec()
    }

    open spec fn eq_spec(&self, other: &Self) -> bool {
        match (*self, *other) {
            (InputEffect::Axis(a, x), InputEffect::Axis(b, y)) => a.eq_spec(&b) && float_bits_eq(x, y),
            (InputEffect::Button(a, p), InputEffect::Button(b, q)) => a.eq_spec(&b) && locations_eq(p, q),
            (InputEffect::Cursor(p), InputEffect::Cursor(q)) => points_eq(p, q),
            _ => false,
        }
    }
}

/// `copy` is a clone of `source`: the same variant with the same positions, and the axis or
/// button in it cloned.
pub open spec fn effect_cloned<Axes: Clone, Buttons: Clone>(
    source: InputEffect<Axes, Buttons>,
    copy: InputEffect<Axes, Buttons>,
) -> bool {
    match (source, copy) {
        (InputEffect::Axis(a, f), InputEffect::Axis(a2, f2)) => cloned(a, a2) && f == f2,
        (InputEffect::Button(b, p), InputEffect::Button(b2, p2)) => cloned(b, b2) && p == p2,
        (InputEffect::Cursor(p), InputEffect::Cursor(p2)) => p == p2,
        _ => false,
    }
}

impl<Axes: Clone, Buttons: Clone> Clone for InputEffect<Axes, Buttons> {
    fn clone(&self) -> (copy: Self)
        ensures
            effect_cloned(*self, copy),
    {
        match self {
            InputEffect::Axis(a, f) => InputEffect::Axis(a.clone(), *f),
            InputEffect::Button(b, p) => InputEffect::Button(b.clone(), *p),
            InputEffect::Cursor(p) => InputEffect::Cursor(*p),
        }
    }
}

/// The effect with a mouse position put into it: a button event gets `point` as its location,
/// other events are unchanged.
pub open spec fn with_mouse_position_spec<Axes, Buttons>(
    effect: InputEffect<Axes, Buttons>,
    point: PointBits,
) -> InputEffect<Axes, Buttons> {
    match effect {
        InputEffect::Button(button, _) => InputEffect::Button(button, Some(point)),
        _ => effect,
    }
}

impl<Axes, Buttons> InputEffect<Axes, Buttons> {
    /// Inject a mouse position into this effect.
    pub fn with_mouse_position(self, point: PointBits) -> (effect: Self)
        ensures
            effect == with_mouse_position_spec(self, point),
    {
        match self {
            InputEffect::Button(button, _) => InputEffect::Button(button, Some(point)),
            _ => self,
        }
    }
}

/// The value of the last entry for `key` in a list of entries, if any: the last entry for a key
/// wins.
pub open spec fn last_lookup<K, V>(entries: Seq<(K, V)>, key: K) -> Option<V>
    decreases entries.len(),
{
    if entries.len() == 0 {
        None
    } else if entries.last().0 == key {
        Some(entries.last().1)
    } else {
        last_lookup(entries.drop_last(), key)
    }
}

/// The map that a list of entries stands for: each key with its last entry's value.
pub open spec fn entries_map<K, V>(entries: Seq<(K, V)>) -> Map<K, V> {
    Map::new(|key: K| last_lookup(entries, key) is Some, |key: K| last_lookup(entries, key)->0)
}

/// A mapping from physical input events to logical axes and buttons.
pub struct InputBinding<Axes, Buttons> {
    bindings: Vec<(InputType, InputEffect<Axes, Buttons>)>,
}

impl<Axes, Buttons> View for InputBinding<Axes, Buttons> {
    type V = Map<InputType, InputEffect<Axes, Buttons>>;

    /// Each bound physical input with the effect it is bound to.
    closed spec fn view(&self) -> Map<InputType, InputEffect<Axes, Buttons>> {
        entries_map(self.bindings@)
    }
}

/// Updating the entry at `i` to another input's entry leaves the lookup of `input` as it was.
pub(crate) proof fn lemma_lookup_update_other<K, V>(entries: Seq<(K, V)>, i: int, entry: (K, V), input: K)
    requires
        0 <= i < entries.len(),
        entries[i].0 == entry.0,
        entry.0 != input,
    ensures
        last_lookup(entries.update(i, entry), input) == last_lookup(entries, input),
    decreases entries.len(),
{
    let updated = entries.update(i, entry);
    if i < entries.len() - 1 {
        assert(updated.drop_last() =~= entries.drop_last().update(i, entry));
        lemma_lookup_update_other(entries.drop_last(), i, entry, input);
    } else {
        assert(updated.drop_last() =~= entries.drop_last());
    }
}

/// Updating the last entry for an input to a new effect makes that effect the one looked up.
pub(crate) proof fn lemma_lookup_update_last<K, V>(entries: Seq<(K, V)>, i: int, entry: (K, V))
    requires
        0 <= i < entries.len(),
        entries[i].0 == entry.0,
        forall|j: int| i < j < entries.len() ==> entries[j].0 != entry.0,
    ensures
        last_lookup(entries.update(i, entry), entry.0) == Some(entry.1),
    decreases entries.len(),
{
    let updated = entries.update(i, entry);
    if i < entries.len() - 1 {
        assert(updated.drop_last() =~= entries.drop_last().update(i, entry));
        lemma_lookup_update_last(entries.drop_last(), i, entry);
    }
}

impl<Axes, Buttons> InputBinding<Axes, Buttons> {
    /// Create an empty set of input bindings.
    pub fn new() -> (binding: Self)
        ensures
            binding@ == Map::<InputType, InputEffect<Axes, Buttons>>::empty(),
    {
        let binding = InputBinding { bindings: Vec::new() };
        assert(binding@ =~= Map::<InputType, InputEffect<Axes, Buttons>>::empty());
        binding
    }

    /// The index of the last entry for `input`, if any.
    fn last_index_of(&self, input: InputType) -> (index: Option<usize>)
        ensures
            match index {
                Some(i) => {
                    &&& i < self.bindings@.len()
                    &&& self.bindings@[i as int].0 == input
                    &&& forall|j: int|
                        i < j < self.bindings@.len() ==> self.bindings@[j].0 != input
                    &&& last_lookup(self.bindings@, input) == Some(
                        self.bindings@[i as int].1,
                    )
                },
                None => last_lookup(self.bindings@, input) is None,
            },
    {
        let mut n = self.bindings.len();
        assert(self.bindings@.take(n as int) =~= self.bindings@);
        while n > 0
            invariant
                n <= self.bindings@.len(),
                forall|j: int| n <= j < self.bindings@.len() ==> self.bindings@[j].0 != input,
                last_lookup(self.bindings@, input) == last_lookup(
                    self.bindings@.take(n as int),
                    input,
                ),
            decreases n,
        {
            let ghost prefix = self.bindings@.take(n as int);
            if self.bindings[n - 1].0 == input {
                return Some(n - 1);
            }
            assert(prefix.drop_last() =~= self.bindings@.take(n - 1));
            n = n - 1;
        }
        None
    }

    /// Binds `input` to `effect`, replacing what it was bound to.
    fn bind(self, input: InputType, effect: InputEffect<Axes, Buttons>) -> (binding: Self)
        ensures
            binding@ == self@.insert(input, effect),
    {
        let index = self.last_index_of(input);
        let InputBinding { mut bindings } = self;
        let ghost old_entries = bindings@;
        match index {
            Some(i) => {
                bindings.set(i, (input, effect));
                proof {
                    lemma_lookup_update_last(old_entries, i as int, (input, effect));
                    assert forall|other: InputType| other != input implies last_lookup(
                        bindings@,
                        other,
                    ) == last_lookup(old_entries, other) by {
                        lemma_lookup_update_other(old_entries, i as int, (input, effect), other);
                    }
                }
            },
            None => {
                bindings.push((input, effect));
                assert(bindings@.drop_last() =~= old_entries);
            },
        }
        let binding = InputBinding { bindings };
        assert(binding@ =~= self@.insert(input, effect));
        binding
    }

    /// Adds a key binding connecting the given keycode to the given logical axis, moved to
    /// `position` (a bit pattern) while the key is held.
    pub fn bind_key_to_axis(self, keycode: KeyCode, axis: Axes, position: u32) -> (binding: Self)
        ensures
            binding@ == self@.insert(InputType::Key(keycode), InputEffect::Axis(axis, position)),
    {
        self.bind(InputType::Key(keycode), InputEffect::Axis(axis, position))
    }

    /// Adds a key binding connecting the given keycode to the given logical button.
    pub fn bind_key_to_button(self, keycode: KeyCode, button: Buttons) -> (binding: Self)
        ensures
            binding@ == self@.insert(InputType::Key(keycode), InputEffect::Button(button, None)),
    {
        self.bind(InputType::Key(keycode), InputEffect::Button(button, None))
    }

    /// Adds a gamepad button binding connecting the given gamepad button to the given logical
    /// button.
    pub fn bind_gamepad_button_to_button(
        self,
        gamepad_button: GamepadButton,
        button: Buttons,
    ) -> (binding: Self)
        ensures
            binding@ == self@.insert(
                InputType::GamepadButton(gamepad_button),
                InputEffect::Button(button, None),
            ),
    {
        self.bind(InputType::GamepadButton(gamepad_button), InputEffect::Button(button, None))
    }

    /// Adds a gamepad axis binding connecting the given gamepad axis to the given logical axis,
    /// with the factor one.
    pub fn bind_gamepad_axis_to_axis(self, gamepad_axis: GamepadAxis, axis: Axes) -> (binding:
        Self)
        ensures
            binding@ == self@.insert(
                InputType::GamepadAxis(gamepad_axis),
                InputEffect::Axis(axis, ONE_BITS),
            ),
    {
        self.bind(InputType::GamepadAxis(gamepad_axis), InputEffect::Axis(axis, ONE_BITS))
    }

    /// Adds a mouse button binding connecting the given mouse button to the given logical button.
    pub fn bind_mouse_to_button(self, mouse_button: MouseButton, button: Buttons) -> (binding:
        Self)
        ensures
            binding@ == self@.insert(
                InputType::MouseButton(mouse_button),
                InputEffect::Button(button, None),
            ),
    {
        self.bind(InputType::MouseButton(mouse_button), InputEffect::Button(button, None))
    }
}

impl<Axes, Buttons> Default for InputBinding<Axes, Buttons> {
    /// An empty set of input bindings.
    fn default() -> (binding: Self)
        ensures
            binding@ == Map::<InputType, InputEffect<Axes, Buttons>>::empty(),
    {
        Self::new()
    }
}

impl<Axes: Clone, Buttons: Clone> InputBinding<Axes, Buttons> {
    /// Turns a physical input into the logical effect it is bound to: a clone of it, or `None`
    /// where the input is not bound.
    pub fn resolve(&self, input: InputType) -> (effect: Option<InputEffect<Axes, Buttons>>)
        ensures
            effect is Some <==> self@.contains_key(input),
            effect matches Some(e) ==> effect_cloned(self@[input], e),
    {
        match self.last_index_of(input) {
            Some(i) => Some(self.bindings[i].1.clone()),
            None => None,
        }
    }

    /// Takes a keycode and turns it into the logical axis or button it is bound to.
    pub fn resolve_keycode(&self, keycode: KeyCode) -> (effect: Option<InputEffect<Axes, Buttons>>)
        ensures
            effect is Some <==> self@.contains_key(InputType::Key(keycode)),
            effect matches Some(e) ==> effect_cloned(self@[InputType::Key(keycode)], e),
    {
        self.resolve(InputType::Key(keycode))
    }

    /// Converts a physical gamepad button into the logical input it is bound to.
    pub fn resolve_gamepad_button(&self, button: GamepadButton) -> (effect: Option<
        InputEffect<Axes, Buttons>,
    >)
        ensures
            effect is Some <==> self@.contains_key(InputType::GamepadButton(button)),
            effect matches Some(e) ==> effect_cloned(
                self@[InputType::GamepadButton(button)],
                e,
            ),
    {
        self.resolve(InputType::GamepadButton(button))
    }

    /// Converts a physical mouse button press at `point` into the logical input it is bound to;
    /// a button effect gets `point` as its location.
    pub fn resolve_mouse_button(&self, mouse_button: MouseButton, point: PointBits) -> (effect:
        Option<InputEffect<Axes, Buttons>>)
        ensures
            effect is Some <==> self@.contains_key(InputType::MouseButton(mouse_button)),
            effect matches Some(e) ==> exists|c: InputEffect<Axes, Buttons>|
                effect_cloned(self@[InputType::MouseButton(mouse_button)], c) && e
                    == with_mouse_position_spec(c, point),
    {
        match self.resolve(InputType::MouseButton(mouse_button)) {
            Some(eff) => Some(eff.with_mouse_position(point)),
            None => None,
        }
    }
}

/// The state of one logical button.
#[derive(Debug, Copy, Clone)]
pub struct ButtonState {
    /// Whether the button is held now.
    pub pressed: bool,
    /// Whether the button was held at the last update.
    pub pressed_last_frame: bool,
    /// Where the last press or release happened, for a mouse click.
    pub event_location: Option<PointBits>,
}

/// The state of a button that was never pressed.
pub open spec fn unpressed() -> ButtonState {
    ButtonState { pressed: false, pressed_last_frame: false, event_location: None }
}

impl Default for ButtonState {
    fn default() -> (state: Self)
        ensures
            state == unpressed(),
    {
        ButtonState { pressed: false, pressed_last_frame: false, event_location: None }
    }
}

/// The state of `button` in a map of button states; a button with no entry is unpressed.
pub open spec fn state_of<Buttons>(states: Map<Buttons, ButtonState>, button: Buttons) -> ButtonState {
    if states.contains_key(button) {
        states[button]
    } else {
        unpressed()
    }
}

/// A state as it is after an update: what is held now was held at the last update.
pub open spec fn after_update(state: ButtonState) -> ButtonState {
    ButtonState { pressed_last_frame: state.pressed, ..state }
}

/// A state as it is after a reset: neither held now nor at the last update.
pub open spec fn after_reset(state: ButtonState) -> ButtonState {
    ButtonState { pressed: false, pressed_last_frame: false, ..state }
}

/// The button states after an event of `button`: a press (`started`) or a release, at `location`
/// if it came from a mouse click. Whether it was held at the last update is kept.
pub open spec fn with_button_event<Buttons>(
    states: Map<Buttons, ButtonState>,
    button: Buttons,
    location: Option<PointBits>,
    started: bool,
) -> Map<Buttons, ButtonState> {
    states.insert(
        button,
        ButtonState { pressed: started, event_location: location, ..state_of(states, button) },
    )
}

/// A button event sets whether the button is held and where the event happened, and nothing
/// else: whether the button was held at the last update is kept, and the other buttons are
/// untouched. So a press of a button that was held at the last update (a key repeat) is no new
/// press, and a press of one that was not is.
pub proof fn lemma_button_event_keeps_last_frame<Buttons>(
    states: Map<Buttons, ButtonState>,
    button: Buttons,
    location: Option<PointBits>,
    started: bool,
    other: Buttons,
)
    ensures
        ({
            let after = state_of(with_button_event(states, button, location, started), button);
            &&& after.pressed == started
            &&& after.event_location == location
            &&& after.pressed_last_frame == state_of(states, button).pressed_last_frame
            &&& state_of(states, button).pressed_last_frame ==> !pressed_this_frame(after)
            &&& (started && !state_of(states, button).pressed_last_frame) ==> pressed_this_frame(
                after,
            )
        }),
        other != button ==> state_of(with_button_event(states, button, location, started), other)
            == state_of(states, other),
{
}

/// A button held across an update and pressed again (a key repeat) reads as held, but not as
/// pressed in this frame; released after that, it reads as released in this frame.
pub proof fn lemma_repeat_press_is_no_new_press<Buttons>(
    states: Map<Buttons, ButtonState>,
    button: Buttons,
    first: Option<PointBits>,
    again: Option<PointBits>,
    release: Option<PointBits>,
)
    ensures
        ({
            let held = next_frame(with_button_event(states, button, first, true));
            let repeated = with_button_event(held, button, again, true);
            let released = with_button_event(repeated, button, release, false);
            &&& state_of(repeated, button).pressed
            &&& !pressed_this_frame(state_of(repeated, button))
            &&& released_this_frame(state_of(released, button))
        }),
{
    let pressed = with_button_event(states, button, first, true);
    assert(pressed.contains_key(button));
    let held = next_frame(pressed);
    assert(held.contains_key(button));
    assert(held[button] == after_update(pressed[button]));
    assert(state_of(held, button).pressed_last_frame);
}

/// The button states after an update: each button's state as [`after_update`] gives it.
pub open spec fn next_frame<Buttons>(states: Map<Buttons, ButtonState>) -> Map<Buttons, ButtonState> {
    states.map_values(|s: ButtonState| after_update(s))
}

/// The button states after a reset: each button's state as [`after_reset`] gives it.
pub open spec fn all_released<Buttons>(states: Map<Buttons, ButtonState>) -> Map<Buttons, ButtonState> {
    states.map_values(|s: ButtonState| after_reset(s))
}

/// Whether a button was pressed in this frame: held now and not at the last update.
pub open spec fn pressed_this_frame(state: ButtonState) -> bool {
    state.pressed && !state.pressed_last_frame
}

/// Whether a button was released in this frame: not held now but held at the last update.
pub open spec fn released_this_frame(state: ButtonState) -> bool {
    !state.pressed && state.pressed_last_frame
}

/// Mapping every value leaves the last entry for each key the last one.
proof fn lemma_lookup_map_values<K, V>(entries: Seq<(K, V)>, f: spec_fn(V) -> V, key: K)
    ensures
        last_lookup(entries.map_values(|e: (K, V)| (e.0, f(e.1))), key) == match last_lookup(
            entries,
            key,
        ) {
            Some(v) => Some(f(v)),
            None => None,
        },
    decreases entries.len(),
{
    let mapped = entries.map_values(|e: (K, V)| (e.0, f(e.1)));
    if entries.len() > 0 {
        assert(mapped.drop_last() =~= entries.drop_last().map_values(|e: (K, V)| (e.0, f(e.1))));
        lemma_lookup_map_values(entries.drop_last(), f, key);
    }
}

/// The logical button states of a game, fed by button events and updated once per frame.
pub struct InputState<Buttons> {
    buttons: Vec<Buttons>,
    states: Vec<ButtonState>,
}

impl<Buttons> InputState<Buttons> {
    /// Each button with an entry, paired with its state.
    pub closed spec fn entries(&self) -> Seq<(Buttons, ButtonState)> {
        Seq::new(self.buttons@.len(), |i: int| (self.buttons@[i], self.states@[i]))
    }

    /// The internal consistency of the state: a state for each button with an entry.
    pub closed spec fn wf(&self) -> bool {
        self.buttons@.len() == self.states@.len()
    }
}

impl<Buttons> View for InputState<Buttons> {
    type V = Map<Buttons, ButtonState>;

    /// Each button that was ever given an event, with its state.
    closed spec fn view(&self) -> Map<Buttons, ButtonState> {
        entries_map(self.entries())
    }
}

impl<Buttons: PartialEq> InputState<Buttons> {
    /// Create a fresh input state, with no button held.
    pub fn new() -> (state: Self)
        ensures
            state.wf(),
            state@ == Map::<Buttons, ButtonState>::empty(),
    {
        let state = InputState { buttons: Vec::new(), states: Vec::new() };
        assert(state@ =~= Map::<Buttons, ButtonState>::empty());
        state
    }

    /// The index of the last entry for `button`, if any.
    fn last_index_of(&self, button: &Buttons) -> (index: Option<usize>)
        requires
            self.wf(),
            vstd::laws_eq::obeys_concrete_eq::<Buttons>(),
        ensures
            match index {
                Some(i) => {
                    &&& i < self.buttons@.len()
                    &&& self.buttons@[i as int] == *button
                    &&& forall|j: int|
                        i < j < self.buttons@.len() ==> self.buttons@[j] != *button
                    &&& last_lookup(self.entries(), *button) == Some(self.states@[i as int])
                },
                None => last_lookup(self.entries(), *button) is None,
            },
    {
        proof {
            reveal(vstd::laws_eq::obeys_concrete_eq);
        }
        let ghost entries = self.entries();
        let mut n = self.buttons.len();
        assert(entries.take(n as int) =~= entries);
        while n > 0
            invariant
                n <= self.buttons@.len(),
                self.wf(),
                entries == self.entries(),
                vstd::laws_eq::obeys_concrete_eq::<Buttons>(),
                forall|j: int| n <= j < self.buttons@.len() ==> self.buttons@[j] != *button,
                last_lookup(entries, *button) == last_lookup(entries.take(n as int), *button),
            decreases n,
        {
            let ghost prefix = entries.take(n as int);
            proof {
                reveal(vstd::laws_eq::obeys_concrete_eq);
            }
            if self.buttons[n - 1] == *button {
                return Some(n - 1);
            }
            assert(prefix.drop_last() =~= entries.take(n - 1));
            n = n - 1;
        }
        None
    }

    /// The state of a logical button.
    fn get_button(&self, button: &Buttons) -> (state: ButtonState)
        requires
            self.wf(),
            vstd::laws_eq::obeys_concrete_eq::<Buttons>(),
        ensures
            state == state_of(self@, *button),
    {
        match self.last_index_of(button) {
            Some(i) => self.states[i],
            None => ButtonState::default(),
        }
    }

    /// Records a press (`started`) or a release of a logical button, at `location` if it came
    /// from a mouse click.
    pub fn update_button(&mut self, button: Buttons, location: Option<PointBits>, started: bool)
        requires
            old(self).wf(),
            vstd::laws_eq::obeys_concrete_eq::<Buttons>(),
        ensures
            final(self).wf(),
            final(self)@ == with_button_event(old(self)@, button, location, started),
    {
        let ghost old_entries = self.entries();
        match self.last_index_of(&button) {
            Some(i) => {
                let old_state = self.states[i];
                let new_state = ButtonState {
                    pressed: started,
                    event_location: location,
                    ..old_state
                };
                self.states.set(i, new_state);
                proof {
                    assert(self.entries() =~= old_entries.update(i as int, (button, new_state)));
                    lemma_lookup_update_last(old_entries, i as int, (button, new_state));
                    assert forall|other: Buttons| other != button implies last_lookup(
                        self.entries(),
                        other,
                    ) == last_lookup(old_entries, other) by {
                        lemma_lookup_update_other(old_entries, i as int, (button, new_state), other);
                    }
                }
            },
            None => {
                let new_state = ButtonState {
                    pressed: started,
                    pressed_last_frame: false,
                    event_location: location,
                };
                self.buttons.push(button);
                self.states.push(new_state);
                assert(self.entries().drop_last() =~= old_entries);
            },
        }
        assert(self@ =~= with_button_event(old(self)@, button, location, started));
    }

    /// Records that a logical button was pressed; call it from the key-down handler.
    pub fn update_button_down(&mut self, button: Buttons)
        requires
            old(self).wf(),
            vstd::laws_eq::obeys_concrete_eq::<Buttons>(),
        ensures
            final(self).wf(),
            final(self)@ == with_button_event(old(self)@, button, None, true),
    {
        self.update_button(button, None, true)
    }

    /// Records that a logical button was released; call it from the key-up handler.
    pub fn update_button_up(&mut self, button: Buttons)
        requires
            old(self).wf(),
            vstd::laws_eq::obeys_concrete_eq::<Buttons>(),
        ensures
            final(self).wf(),
            final(self)@ == with_button_event(old(self)@, button, None, false),
    {
        self.update_button(button, None, false)
    }

    /// Moves to the next frame: what is held now counts as held at the last update. Call it in
    /// the update handler.
    pub fn update(&mut self)
        requires
            old(self).wf(),
        ensures
            final(self).wf(),
            final(self)@ == next_frame(old(self)@),
    {
        let ghost old_entries = self.entries();
        let ghost old_states = self.states@;
        let n = self.states.len();
        let mut i: usize = 0;
        while i < n
            invariant
                n == self.states@.len(),
                self.wf(),
                old_entries == Seq::new(
                    self.buttons@.len(),
                    |j: int| (self.buttons@[j], old_states[j]),
                ),
                old_states.len() == n,
                i <= n,
                forall|j: int| 0 <= j < i ==> self.states@[j] == after_update(old_states[j]),
                forall|j: int| i <= j < n ==> self.states@[j] == old_states[j],
            decreases n - i,
        {
            let s = self.states[i];
            self.states.set(i, ButtonState { pressed_last_frame: s.pressed, ..s });
            i = i + 1;
        }
        proof {
            let f = |s: ButtonState| after_update(s);
            assert(self.entries() =~= old_entries.map_values(
                |e: (Buttons, ButtonState)| (e.0, f(e.1)),
            ));
            assert forall|b: Buttons| #[trigger] last_lookup(self.entries(), b) == match last_lookup(
                old_entries,
                b,
            ) {
                Some(v) => Some(f(v)),
                None => None,
            } by {
                lemma_lookup_map_values(old_entries, f, b);
            }
            assert(self@ =~= next_frame(old(self)@));
        }
    }

    /// Resets every button to unheld, neither now nor at the last update.
    pub fn reset_input_state(&mut self)
        requires
            old(self).wf(),
        ensures
            final(self).wf(),
            final(self)@ == all_released(old(self)@),
    {
        let ghost old_entries = self.entries();
        let ghost old_states = self.states@;
        let n = self.states.len();
        let mut i: usize = 0;
        while i < n
            invariant
                n == self.states@.len(),
                self.wf(),
                old_entries == Seq::new(
                    self.buttons@.len(),
                    |j: int| (self.buttons@[j], old_states[j]),
                ),
                old_states.len() == n,
                i <= n,
                forall|j: int| 0 <= j < i ==> self.states@[j] == after_reset(old_states[j]),
                forall|j: int| i <= j < n ==> self.states@[j] == old_states[j],
            decreases n - i,
        {
            let s = self.states[i];
            self.states.set(i, ButtonState { pressed: false, pressed_last_frame: false, ..s });
            i = i + 1;
        }
        proof {
            let f = |s: ButtonState| after_reset(s);
            assert(self.entries() =~= old_entries.map_values(
                |e: (Buttons, ButtonState)| (e.0, f(e.1)),
            ));
            assert forall|b: Buttons| #[trigger] last_lookup(self.entries(), b) == match last_lookup(
                old_entries,
                b,
            ) {
                Some(v) => Some(f(v)),
                None => None,
            } by {
                lemma_lookup_map_values(old_entries, f, b);
            }
            assert(self@ =~= all_released(old(self)@));
        }
    }

    /// Whether a logical button is held.
    pub fn get_button_down(&self, button: Buttons) -> (down: bool)
        requires
            self.wf(),
            vstd::laws_eq::obeys_concrete_eq::<Buttons>(),
        ensures
            down == state_of(self@, button).pressed,
    {
        self.get_button(&button).pressed
    }

    /// Whether a logical button is not held.
    pub fn get_button_up(&self, button: Buttons) -> (up: bool)
        requires
            self.wf(),
            vstd::laws_eq::obeys_concrete_eq::<Buttons>(),
        ensures
            up == !state_of(self@, button).pressed,
    {
        !self.get_button(&button).pressed
    }

    /// Whether the button was pressed this frame: held now and not at the last update. Down and
    /// up are level triggers; this and [`Self::get_button_released`] are edge triggers.
    pub fn get_button_pressed(&self, button: Buttons) -> (pressed: bool)
        requires
            self.wf(),
            vstd::laws_eq::obeys_concrete_eq::<Buttons>(),
        ensures
            pressed == pressed_this_frame(state_of(self@, button)),
    {
        let b = self.get_button(&button);
        b.pressed && !b.pressed_last_frame
    }

    /// Whether the button was released this frame: not held now but held at the last update.
    pub fn get_button_released(&self, button: Buttons) -> (released: bool)
        requires
            self.wf(),
            vstd::laws_eq::obeys_concrete_eq::<Buttons>(),
        ensures
            released == released_this_frame(state_of(self@, button)),
    {
        let b = self.get_button(&button);
        !b.pressed && b.pressed_last_frame
    }

    /// Where the last event of a button happened, if it had a location (a mouse click).
    pub fn get_button_event_location(&self, button: Buttons) -> (location: Option<PointBits>)
        requires
            self.wf(),
            vstd::laws_eq::obeys_concrete_eq::<Buttons>(),
        ensures
            location == state_of(self@, button).event_location,
    {
        self.get_button(&button).event_location
    }
}

impl<Buttons: PartialEq> Default for InputState<Buttons> {
    /// A fresh input state, with no button held.
    fn default() -> (state: Self)
        ensures
            state.wf(),
            state@ == Map::<Buttons, ButtonState>::empty(),
    {
        Self::new()
    }
}

/// Binding an input and then resolving it gives back the bound effect, and every other input
/// resolves as before: rebinding an input replaces what it was bound to.
pub proof fn lemma_resolve_after_bind<Axes, Buttons>(
    bindings: Map<InputType, InputEffect<Axes, Buttons>>,
    input: InputType,
    effect: InputEffect<Axes, Buttons>,
    other: InputType,
)
    ensures
        bindings.insert(input, effect).contains_key(input),
        bindings.insert(input, effect)[input] == effect,
        other != input ==> bindings.insert(input, effect).contains_key(other)
            == bindings.contains_key(other),
        other != input && bindings.contains_key(other) ==> bindings.insert(input, effect)[other]
            == bindings[other],
{
}

/// The edge triggers fire only in the frame of a change: after an update no button reads as
/// pressed or released this frame, and whether it is held is unchanged.
pub proof fn lemma_update_clears_edges<Buttons>(states: Map<Buttons, ButtonState>, button: Buttons)
    ensures
        state_of(next_frame(states), button).pressed == state_of(states, button).pressed,
        !pressed_this_frame(state_of(next_frame(states), button)),
        !released_this_frame(state_of(next_frame(states), button)),
{
}

/// A button is never pressed and released in the same frame.
pub proof fn lemma_pressed_and_released_exclusive(state: ButtonState)
    ensures
        !(pressed_this_frame(state) && released_this_frame(state)),
{
}

/// A full cycle of a button that is up: pressing it reads as pressed this frame; after the next
/// update it is still down but no longer pressed this frame; releasing it then reads as released
/// this frame, and it is up.
pub proof fn lemma_press_cycle<Buttons>(states: Map<Buttons, ButtonState>, button: Buttons)
    requires
        !state_of(states, button).pressed,
    ensures
        pressed_this_frame(
            state_of(with_button_event(next_frame(states), button, None, true), button),
        ),
        state_of(next_frame(with_button_event(next_frame(states), button, None, true)), button).pressed,
        !pressed_this_frame(
            state_of(next_frame(with_button_event(next_frame(states), button, None, true)), button),
        ),
        released_this_frame(
            state_of(
                with_button_event(
                    next_frame(with_button_event(next_frame(states), button, None, true)),
                    button,
                    None,
                    false,
                ),
                button,
            ),
        ),
{
}

/// After a reset every button is up, with no press or release this frame.
pub proof fn lemma_reset_releases_all<Buttons>(states: Map<Buttons, ButtonState>, button: Buttons)
    ensures
        !state_of(all_released(states), button).pressed,
        !pressed_this_frame(state_of(all_released(states), button)),
        !released_this_frame(state_of(all_released(states), button)),
{
}

} // verus!
