//! The keys of a keyboard and the names that each system has for them.
//!
//! A [`KeyCode`] is a place on the keyboard, whatever is printed on it. Linux
//! and Windows number the same places differently, and a keyboard that is
//! simulated through its symbols wants the symbol instead.

use vstd::prelude::*;

verus! {

/// A key, by its place on a keyboard.
#[derive(Debug, Clone, Copy, PartialEq, Eq, Structural)]
pub enum KeyCode {
    A,
    B,
    C,
    D,
    E,
    F,
    G,
    H,
    I,
    J,
    K,
    L,
    M,
    N,
    O,
    P,
    Q,
    R,
    S,
    T,
    U,
    V,
    W,
    X,
    Y,
    Z,
    Key0,
    Key1,
    Key2,
    Key3,
    Key4,
    Key5,
    Key6,
    Key7,
    Key8,
    Key9,
    F1,
    F2,
    F3,
    F4,
    F5,
    F6,
    F7,
    F8,
    F9,
    F10,
    F11,
    F12,
    LeftShift,
    RightShift,
    LeftCtrl,
    RightCtrl,
    LeftAlt,
    RightAlt,
    LeftMeta,
    RightMeta,
    Up,
    Down,
    Left,
    Right,
    Home,
    End,
    PageUp,
    PageDown,
    Backspace,
    Delete,
    Tab,
    Enter,
    Space,
    Escape,
    Insert,
    Minus,
    Equal,
    LeftBracket,
    RightBracket,
    Backslash,
    Semicolon,
    Apostrophe,
    Grave,
    Comma,
    Period,
    Slash,
    CapsLock,
    NumLock,
    ScrollLock,
    PrintScreen,
    Pause,
}

/// A key as a keyboard of symbols knows it: a character, or a key that has a
/// name of its own and no side.
#[derive(Debug, Clone, Copy, PartialEq, Eq, Structural)]
pub enum SymbolKey {
    Unicode(char),
    F1,
    F2,
    F3,
    F4,
    F5,
    F6,
    F7,
    F8,
    F9,
    F10,
    F11,
    F12,
    Shift,
    Control,
    Alt,
    Meta,
    UpArrow,
    DownArrow,
    LeftArrow,
    RightArrow,
    Home,
    End,
    PageUp,
    PageDown,
    Backspace,
    Delete,
    Tab,
    Return,
    Space,
    Escape,
    CapsLock,
}

/// The number that the Linux input layer has for a key.
pub open spec fn evdev_code(key: KeyCode) -> u16 {
    match key {
        KeyCode::A => 30u16,
        KeyCode::B => 48u16,
        KeyCode::C => 46u16,
        KeyCode::D => 32u16,
        KeyCode::E => 18u16,
        KeyCode::F => 33u16,
        KeyCode::G => 34u16,
        KeyCode::H => 35u16,
        KeyCode::I => 23u16,
        KeyCode::J => 36u16,
        KeyCode::K => 37u16,
        KeyCode::L => 38u16,
        KeyCode::M => 50u16,
        KeyCode::N => 49u16,
        KeyCode::O => 24u16,
        KeyCode::P => 25u16,
        KeyCode::Q => 16u16,
        KeyCode::R => 19u16,
        KeyCode::S => 31u16,
        KeyCode::T => 20u16,
        KeyCode::U => 22u16,
        KeyCode::V => 47u16,
        KeyCode::W => 17u16,
        KeyCode::X => 45u16,
        KeyCode::Y => 21u16,
        KeyCode::Z => 44u16,
        KeyCode::Key0 => 11u16,
        KeyCode::Key1 => 2u16,
        KeyCode::Key2 => 3u16,
        KeyCode::Key3 => 4u16,
        KeyCode::Key4 => 5u16,
        KeyCode::Key5 => 6u16,
        KeyCode::Key6 => 7u16,
        KeyCode::Key7 => 8u16,
        KeyCode::Key8 => 9u16,
        KeyCode::Key9 => 10u16,
        KeyCode::F1 => 59u16,
        KeyCode::F2 => 60u16,
        KeyCode::F3 => 61u16,
        KeyCode::F4 => 62u16,
        KeyCode::F5 => 63u16,
        KeyCode::F6 => 64u16,
        KeyCode::F7 => 65u16,
        KeyCode::F8 => 66u16,
        KeyCode::F9 => 67u16,
        KeyCode::F10 => 68u16,
        KeyCode::F11 => 87u16,
        KeyCode::F12 => 88u16,
        KeyCode::LeftShift => 42u16,
        KeyCode::RightShift => 54u16,
        KeyCode::LeftCtrl => 29u16,
        KeyCode::RightCtrl => 97u16,
        KeyCode::LeftAlt => 56u16,
        KeyCode::RightAlt => 100u16,
        KeyCode::LeftMeta => 125u16,
        KeyCode::RightMeta => 126u16,
        KeyCode::Up => 103u16,
        KeyCode::Down => 108u16,
        KeyCode::Left => 105u16,
        KeyCode::Right => 106u16,
        KeyCode::Home => 102u16,
        KeyCode::End => 107u16,
        KeyCode::PageUp => 104u16,
        KeyCode::PageDown => 109u16,
        KeyCode::Backspace => 14u16,
        KeyCode::Delete => 111u16,
        KeyCode::Tab => 15u16,
        KeyCode::Enter => 28u16,
        KeyCode::Space => 57u16,
        KeyCode::Escape => 1u16,
        KeyCode::Insert => 110u16,
        KeyCode::Minus => 12u16,
        KeyCode::Equal => 13u16,
        KeyCode::LeftBracket => 26u16,
        KeyCode::RightBracket => 27u16,
        KeyCode::Backslash => 43u16,
        KeyCode::Semicolon => 39u16,
        KeyCode::Apostrophe => 40u16,
        KeyCode::Grave => 41u16,
        KeyCode::Comma => 51u16,
        KeyCode::Period => 52u16,
        KeyCode::Slash => 53u16,
        KeyCode::CapsLock => 58u16,
        KeyCode::NumLock => 69u16,
        KeyCode::ScrollLock => 70u16,
        KeyCode::PrintScreen => 210u16,
        KeyCode::Pause => 119u16,
    }
}

/// The number that Windows has for a key, where it has one here.
pub open spec fn windows_vk(key: KeyCode) -> Option<u16> {
    match key {
        KeyCode::A => Some(0x41u16),
        KeyCode::B => Some(0x42u16),
        KeyCode::C => Some(0x43u16),
        KeyCode::D => Some(0x44u16),
        KeyCode::E => Some(0x45u16),
        KeyCode::F => Some(0x46u16),
        KeyCode::G => Some(0x47u16),
        KeyCode::H => Some(0x48u16),
        KeyCode::I => Some(0x49u16),
        KeyCode::J => Some(0x4au16),
        KeyCode::K => Some(0x4bu16),
        KeyCode::L => Some(0x4cu16),
        KeyCode::M => Some(0x4du16),
        KeyCode::N => Some(0x4eu16),
        KeyCode::O => Some(0x4fu16),
        KeyCode::P => Some(0x50u16),
        KeyCode::Q => Some(0x51u16),
        KeyCode::R => Some(0x52u16),
        KeyCode::S => Some(0x53u16),
        KeyCode::T => Some(0x54u16),
        KeyCode::U => Some(0x55u16),
        KeyCode::V => Some(0x56u16),
        KeyCode::W => Some(0x57u16),
        KeyCode::X => Some(0x58u16),
        KeyCode::Y => Some(0x59u16),
        KeyCode::Z => Some(0x5au16),
        KeyCode::Key0 => Some(0x30u16),
        KeyCode::Key1 => Some(0x31u16),
        KeyCode::Key2 => Some(0x32u16),
        KeyCode::Key3 => Some(0x33u16),
        KeyCode::Key4 => Some(0x34u16),
        KeyCode::Key5 => Some(0x35u16),
        KeyCode::Key6 => Some(0x36u16),
        KeyCode::Key7 => Some(0x37u16),
        KeyCode::Key8 => Some(0x38u16),
        KeyCode::Key9 => Some(0x39u16),
        KeyCode::F1 => Some(0x70u16),
        KeyCode::F2 => Some(0x71u16),
        KeyCode::F3 => Some(0x72u16),
        KeyCode::F4 => Some(0x73u16),
        KeyCode::F5 => Some(0x74u16),
        KeyCode::F6 => Some(0x75u16),
        KeyCode::F7 => Some(0x76u16),
        KeyCode::F8 => Some(0x77u16),
        KeyCode::F9 => Some(0x78u16),
        KeyCode::F10 => Some(0x79u16),
        KeyCode::F11 => Some(0x7au16),
        KeyCode::F12 => Some(0x7bu16),
        KeyCode::LeftShift => Some(0xa0u16),
        KeyCode::RightShift => Some(0xa1u16),
        KeyCode::LeftCtrl => Some(0xa2u16),
        KeyCode::RightCtrl => Some(0xa3u16),
        KeyCode::LeftAlt => Some(0xa4u16),
        KeyCode::RightAlt => Some(0xa5u16),
        KeyCode::LeftMeta => Some(0x5bu16),
        KeyCode::RightMeta => Some(0x5cu16),
        KeyCode::Up => Some(0x26u16),
        KeyCode::Down => Some(0x28u16),
        KeyCode::Left => Some(0x25u16),
        KeyCode::Right => Some(0x27u16),
        KeyCode::Home => Some(0x24u16),
        KeyCode::End => Some(0x23u16),
        KeyCode::PageUp => Some(0x21u16),
        KeyCode::PageDown => Some(0x22u16),
        KeyCode::Backspace => Some(0x08u16),
        KeyCode::Delete => Some(0x2eu16),
        KeyCode::Tab => Some(0x09u16),
        KeyCode::Enter => Some(0x0du16),
        KeyCode::Space => Some(0x20u16),
        KeyCode::Escape => Some(0x1bu16),
        KeyCode::Insert => Some(0x2du16),
        KeyCode::Minus => Some(0xbdu16),
        KeyCode::Equal => Some(0xbbu16),
        KeyCode::LeftBracket => Some(0xdbu16),
        KeyCode::RightBracket => Some(0xddu16),
        KeyCode::Backslash => Some(0xdcu16),
        KeyCode::Semicolon => Some(0xbau16),
        KeyCode::Apostrophe => Some(0xdeu16),
        KeyCode::Grave => Some(0xc0u16),
        KeyCode::Comma => Some(0xbcu16),
        KeyCode::Period => Some(0xbeu16),
        KeyCode::Slash => Some(0xbfu16),
        KeyCode::CapsLock => Some(0x14u16),
        KeyCode::NumLock => Some(0x90u16),
        _ => None,
    }
}

/// Whether Windows tells a key from its twin on the number pad, or from the
/// modifier on the other side, by the extended flag.
pub open spec fn is_extended(key: KeyCode) -> bool {
    match key {
        KeyCode::Insert
        | KeyCode::Delete
        | KeyCode::Home
        | KeyCode::End
        | KeyCode::PageUp
        | KeyCode::PageDown
        | KeyCode::Up
        | KeyCode::Down
        | KeyCode::Left
        | KeyCode::Right
        | KeyCode::RightAlt
        | KeyCode::RightCtrl
        | KeyCode::LeftMeta
        | KeyCode::RightMeta => true,
        _ => false,
    }
}

/// The symbol on a key, where a keyboard of symbols has it.
pub open spec fn symbol_key(key: KeyCode) -> Option<SymbolKey> {
    match key {
        KeyCode::A => Some(SymbolKey::Unicode('a')),
        KeyCode::B => Some(SymbolKey::Unicode('b')),
        KeyCode::C => Some(SymbolKey::Unicode('c')),
        KeyCode::D => Some(SymbolKey::Unicode('d')),
        KeyCode::E => Some(SymbolKey::Unicode('e')),
        KeyCode::F => Some(SymbolKey::Unicode('f')),
        KeyCode::G => Some(SymbolKey::Unicode('g')),
        KeyCode::H => Some(SymbolKey::Unicode('h')),
        KeyCode::I => Some(SymbolKey::Unicode('i')),
        KeyCode::J => Some(SymbolKey::Unicode('j')),
        KeyCode::K => Some(SymbolKey::Unicode('k')),
        KeyCode::L => Some(SymbolKey::Unicode('l')),
        KeyCode::M => Some(SymbolKey::Unicode('m')),
        KeyCode::N => Some(SymbolKey::Unicode('n')),
        KeyCode::O => Some(SymbolKey::Unicode('o')),
        KeyCode::P => Some(SymbolKey::Unicode('p')),
        KeyCode::Q => Some(SymbolKey::Unicode('q')),
        KeyCode::R => Some(SymbolKey::Unicode('r')),
        KeyCode::S => Some(SymbolKey::Unicode('s')),
        KeyCode::T => Some(SymbolKey::Unicode('t')),
        KeyCode::U => Some(SymbolKey::Unicode('u')),
        KeyCode::V => Some(SymbolKey::Unicode('v')),
        KeyCode::W => Some(SymbolKey::Unicode('w')),
        KeyCode::X => Some(SymbolKey::Unicode('x')),
        KeyCode::Y => Some(SymbolKey::Unicode('y')),
        KeyCode::Z => Some(SymbolKey::Unicode('z')),
        KeyCode::Key0 => Some(SymbolKey::Unicode('0')),
        KeyCode::Key1 => Some(SymbolKey::Unicode('1')),
        KeyCode::Key2 => Some(SymbolKey::Unicode('2')),
        KeyCode::Key3 => Some(SymbolKey::Unicode('3')),
        KeyCode::Key4 => Some(SymbolKey::Unicode('4')),
        KeyCode::Key5 => Some(SymbolKey::Unicode('5')),
        KeyCode::Key6 => Some(SymbolKey::Unicode('6')),
        KeyCode::Key7 => Some(SymbolKey::Unicode('7')),
        KeyCode::Key8 => Some(SymbolKey::Unicode('8')),
        KeyCode::Key9 => Some(SymbolKey::Unicode('9')),
        KeyCode::F1 => Some(SymbolKey::F1),
        KeyCode::F2 => Some(SymbolKey::F2),
        KeyCode::F3 => Some(SymbolKey::F3),
        KeyCode::F4 => Some(SymbolKey::F4),
        KeyCode::F5 => Some(SymbolKey::F5),
        KeyCode::F6 => Some(SymbolKey::F6),
        KeyCode::F7 => Some(SymbolKey::F7),
        KeyCode::F8 => Some(SymbolKey::F8),
        KeyCode::F9 => Some(SymbolKey::F9),
        KeyCode::F10 => Some(SymbolKey::F10),
        KeyCode::F11 => Some(SymbolKey::F11),
        KeyCode::F12 => Some(SymbolKey::F12),
        KeyCode::LeftShift
        | KeyCode::RightShift => Some(SymbolKey::Shift),
        KeyCode::LeftCtrl
        | KeyCode::RightCtrl => Some(SymbolKey::Control),
        KeyCode::LeftAlt
        | KeyCode::RightAlt => Some(SymbolKey::Alt),
        KeyCode::LeftMeta
        | KeyCode::RightMeta => Some(SymbolKey::Meta),
        KeyCode::Up => Some(SymbolKey::UpArrow),
        KeyCode::Down => Some(SymbolKey::DownArrow),
        KeyCode::Left => Some(SymbolKey::LeftArrow),
        KeyCode::Right => Some(SymbolKey::RightArrow),
        KeyCode::Home => Some(SymbolKey::Home),
        KeyCode::End => Some(SymbolKey::End),
        KeyCode::PageUp => Some(SymbolKey::PageUp),
        KeyCode::PageDown => Some(SymbolKey::PageDown),
        KeyCode::Backspace => Some(SymbolKey::Backspace),
        KeyCode::Delete => Some(SymbolKey::Delete),
        KeyCode::Tab => Some(SymbolKey::Tab),
        KeyCode::Enter => Some(SymbolKey::Return),
        KeyCode::Space => Some(SymbolKey::Space),
        KeyCode::Escape => Some(SymbolKey::Escape),
        KeyCode::Minus => Some(SymbolKey::Unicode('-')),
        KeyCode::Equal => Some(SymbolKey::Unicode('=')),
        KeyCode::LeftBracket => Some(SymbolKey::Unicode('[')),
        KeyCode::RightBracket => Some(SymbolKey::Unicode(']')),
        KeyCode::Backslash => Some(SymbolKey::Unicode('\\')),
        KeyCode::Semicolon => Some(SymbolKey::Unicode(';')),
        KeyCode::Apostrophe => Some(SymbolKey::Unicode('\'')),
        KeyCode::Grave => Some(SymbolKey::Unicode('`')),
        KeyCode::Comma => Some(SymbolKey::Unicode(',')),
        KeyCode::Period => Some(SymbolKey::Unicode('.')),
        KeyCode::Slash => Some(SymbolKey::Unicode('/')),
        KeyCode::CapsLock => Some(SymbolKey::CapsLock),
        _ => None,
    }
}

/// The numbers of the keys that the virtual keyboard has.
pub open spec fn supported_codes() -> Seq<u16> {
    seq![
        30u16, 48u16, 46u16, 32u16, 18u16, 33u16, 34u16, 35u16, 23u16, 36u16, 37u16,
        38u16, 50u16, 49u16, 24u16, 25u16, 16u16, 19u16, 31u16, 20u16, 22u16, 47u16,
        17u16, 45u16, 21u16, 44u16, 11u16, 2u16, 3u16, 4u16, 5u16, 6u16, 7u16, 8u16,
        9u16, 10u16, 59u16, 60u16, 61u16, 62u16, 63u16, 64u16, 65u16, 66u16, 67u16,
        68u16, 87u16, 88u16, 42u16, 54u16, 29u16, 97u16, 56u16, 100u16, 125u16, 126u16,
        103u16, 108u16, 105u16, 106u16, 102u16, 107u16, 104u16, 109u16, 14u16, 111u16,
        15u16, 28u16, 57u16, 1u16, 110u16, 12u16, 13u16, 26u16, 27u16, 43u16, 39u16,
        40u16, 41u16, 51u16, 52u16, 53u16, 58u16, 69u16, 70u16, 210u16, 119u16,
    ]
}

/// The number that the Linux input layer has for `key`.
pub fn keycode_to_evdev(key: KeyCode) -> (code: u16)
    ensures
        code == evdev_code(key),
{
    match key {
        KeyCode::A => 30u16,
        KeyCode::B => 48u16,
        KeyCode::C => 46u16,
        KeyCode::D => 32u16,
        KeyCode::E => 18u16,
        KeyCode::F => 33u16,
        KeyCode::G => 34u16,
        KeyCode::H => 35u16,
        KeyCode::I => 23u16,
        KeyCode::J => 36u16,
        KeyCode::K => 37u16,
        KeyCode::L => 38u16,
        KeyCode::M => 50u16,
        KeyCode::N => 49u16,
        KeyCode::O => 24u16,
        KeyCode::P => 25u16,
        KeyCode::Q => 16u16,
        KeyCode::R => 19u16,
        KeyCode::S => 31u16,
        KeyCode::T => 20u16,
        KeyCode::U => 22u16,
        KeyCode::V => 47u16,
        KeyCode::W => 17u16,
        KeyCode::X => 45u16,
        KeyCode::Y => 21u16,
        KeyCode::Z => 44u16,
        KeyCode::Key0 => 11u16,
        KeyCode::Key1 => 2u16,
        KeyCode::Key2 => 3u16,
        KeyCode::Key3 => 4u16,
        KeyCode::Key4 => 5u16,
        KeyCode::Key5 => 6u16,
        KeyCode::Key6 => 7u16,
        KeyCode::Key7 => 8u16,
        KeyCode::Key8 => 9u16,
        KeyCode::Key9 => 10u16,
        KeyCode::F1 => 59u16,
        KeyCode::F2 => 60u16,
        KeyCode::F3 => 61u16,
        KeyCode::F4 => 62u16,
        KeyCode::F5 => 63u16,
        KeyCode::F6 => 64u16,
        KeyCode::F7 => 65u16,
        KeyCode::F8 => 66u16,
        KeyCode::F9 => 67u16,
        KeyCode::F10 => 68u16,
        KeyCode::F11 => 87u16,
        KeyCode::F12 => 88u16,
        KeyCode::LeftShift => 42u16,
        KeyCode::RightShift => 54u16,
        KeyCode::LeftCtrl => 29u16,
        KeyCode::RightCtrl => 97u16,
        KeyCode::LeftAlt => 56u16,
        KeyCode::RightAlt => 100u16,
        KeyCode::LeftMeta => 125u16,
        KeyCode::RightMeta => 126u16,
        KeyCode::Up => 103u16,
        KeyCode::Down => 108u16,
        KeyCode::Left => 105u16,
        KeyCode::Right => 106u16,
        KeyCode::Home => 102u16,
        KeyCode::End => 107u16,
        KeyCode::PageUp => 104u16,
        KeyCode::PageDown => 109u16,
        KeyCode::Backspace => 14u16,
        KeyCode::Delete => 111u16,
        KeyCode::Tab => 15u16,
        KeyCode::Enter => 28u16,
        KeyCode::Space => 57u16,
        KeyCode::Escape => 1u16,
        KeyCode::Insert => 110u16,
        KeyCode::Minus => 12u16,
        KeyCode::Equal => 13u16,
        KeyCode::LeftBracket => 26u16,
        KeyCode::RightBracket => 27u16,
        KeyCode::Backslash => 43u16,
        KeyCode::Semicolon => 39u16,
        KeyCode::Apostrophe => 40u16,
        KeyCode::Grave => 41u16,
        KeyCode::Comma => 51u16,
        KeyCode::Period => 52u16,
        KeyCode::Slash => 53u16,
        KeyCode::CapsLock => 58u16,
        KeyCode::NumLock => 69u16,
        KeyCode::ScrollLock => 70u16,
        KeyCode::PrintScreen => 210u16,
        KeyCode::Pause => 119u16,
    }
}

/// The symbol on `key`, where a keyboard of symbols has it.
pub fn keycode_to_enigo(key: KeyCode) -> (symbol: Option<SymbolKey>)
    ensures
        symbol == symbol_key(key),
{
    match key {
        KeyCode::A => Some(SymbolKey::Unicode('a')),
        KeyCode::B => Some(SymbolKey::Unicode('b')),
        KeyCode::C => Some(SymbolKey::Unicode('c')),
        KeyCode::D => Some(SymbolKey::Unicode('d')),
        KeyCode::E => Some(SymbolKey::Unicode('e')),
        KeyCode::F => Some(SymbolKey::Unicode('f')),
        KeyCode::G => Some(SymbolKey::Unicode('g')),
        KeyCode::H => Some(SymbolKey::Unicode('h')),
        KeyCode::I => Some(SymbolKey::Unicode('i')),
        KeyCode::J => Some(SymbolKey::Unicode('j')),
        KeyCode::K => Some(SymbolKey::Unicode('k')),
        KeyCode::L => Some(SymbolKey::Unicode('l')),
        KeyCode::M => Some(SymbolKey::Unicode('m')),
        KeyCode::N => Some(SymbolKey::Unicode('n')),
        KeyCode::O => Some(SymbolKey::Unicode('o')),
        KeyCode::P => Some(SymbolKey::Unicode('p')),
        KeyCode::Q => Some(SymbolKey::Unicode('q')),
        KeyCode::R => Some(SymbolKey::Unicode('r')),
        KeyCode::S => Some(SymbolKey::Unicode('s')),
        KeyCode::T => Some(SymbolKey::Unicode('t')),
        KeyCode::U => Some(SymbolKey::Unicode('u')),
        KeyCode::V => Some(SymbolKey::Unicode('v')),
        KeyCode::W => Some(SymbolKey::Unicode('w')),
        KeyCode::X => Some(SymbolKey::Unicode('x')),
        KeyCode::Y => Some(SymbolKey::Unicode('y')),
        KeyCode::Z => Some(SymbolKey::Unicode('z')),
        KeyCode::Key0 => Some(SymbolKey::Unicode('0')),
        KeyCode::Key1 => Some(SymbolKey::Unicode('1')),
        KeyCode::Key2 => Some(SymbolKey::Unicode('2')),
        KeyCode::Key3 => Some(SymbolKey::Unicode('3')),
        KeyCode::Key4 => Some(SymbolKey::Unicode('4')),
        KeyCode::Key5 => Some(SymbolKey::Unicode('5')),
        KeyCode::Key6 => Some(SymbolKey::Unicode('6')),
        KeyCode::Key7 => Some(SymbolKey::Unicode('7')),
        KeyCode::Key8 => Some(SymbolKey::Unicode('8')),
        KeyCode::Key9 => Some(SymbolKey::Unicode('9')),
        KeyCode::F1 => Some(SymbolKey::F1),
        KeyCode::F2 => Some(SymbolKey::F2),
        KeyCode::F3 => Some(SymbolKey::F3),
        KeyCode::F4 => Some(SymbolKey::F4),
        KeyCode::F5 => Some(SymbolKey::F5),
        KeyCode::F6 => Some(SymbolKey::F6),
        KeyCode::F7 => Some(SymbolKey::F7),
        KeyCode::F8 => Some(SymbolKey::F8),
        KeyCode::F9 => Some(SymbolKey::F9),
        KeyCode::F10 => Some(SymbolKey::F10),
        KeyCode::F11 => Some(SymbolKey::F11),
        KeyCode::F12 => Some(SymbolKey::F12),
        KeyCode::LeftShift
        | KeyCode::RightShift => Some(SymbolKey::Shift),
        KeyCode::LeftCtrl
        | KeyCode::RightCtrl => Some(SymbolKey::Control),
        KeyCode::LeftAlt
        | KeyCode::RightAlt => Some(SymbolKey::Alt),
        KeyCode::LeftMeta
        | KeyCode::RightMeta => Some(SymbolKey::Meta),
        KeyCode::Up => Some(SymbolKey::UpArrow),
        KeyCode::Down => Some(SymbolKey::DownArrow),
        KeyCode::Left => Some(SymbolKey::LeftArrow),
        KeyCode::Right => Some(SymbolKey::RightArrow),
        KeyCode::Home => Some(SymbolKey::Home),
        KeyCode::End => Some(SymbolKey::End),
        KeyCode::PageUp => Some(SymbolKey::PageUp),
        KeyCode::PageDown => Some(SymbolKey::PageDown),
        KeyCode::Backspace => Some(SymbolKey::Backspace),
        KeyCode::Delete => Some(SymbolKey::Delete),
        KeyCode::Tab => Some(SymbolKey::Tab),
        KeyCode::Enter => Some(SymbolKey::Return),
        KeyCode::Space => Some(SymbolKey::Space),
        KeyCode::Escape => Some(SymbolKey::Escape),
        KeyCode::Minus => Some(SymbolKey::Unicode('-')),
        KeyCode::Equal => Some(SymbolKey::Unicode('=')),
        KeyCode::LeftBracket => Some(SymbolKey::Unicode('[')),
        KeyCode::RightBracket => Some(SymbolKey::Unicode(']')),
        KeyCode::Backslash => Some(SymbolKey::Unicode('\\')),
        KeyCode::Semicolon => Some(SymbolKey::Unicode(';')),
        KeyCode::Apostrophe => Some(SymbolKey::Unicode('\'')),
        KeyCode::Grave => Some(SymbolKey::Unicode('`')),
        KeyCode::Comma => Some(SymbolKey::Unicode(',')),
        KeyCode::Period => Some(SymbolKey::Unicode('.')),
        KeyCode::Slash => Some(SymbolKey::Unicode('/')),
        KeyCode::CapsLock => Some(SymbolKey::CapsLock),
        _ => None,
    }
}

/// The number that Windows has for `key` and whether it needs the extended
/// flag, where Windows has the key.
pub fn keycode_to_windows_vk(key: KeyCode) -> (found: Option<(u16, bool)>)
    ensures
        found == match windows_vk(key) {
            Some(vk) => Some((vk, is_extended(key))),
            None => None,
        },
{
    let extended: bool = match key {
        KeyCode::Insert
        | KeyCode::Delete
        | KeyCode::Home
        | KeyCode::End
        | KeyCode::PageUp
        | KeyCode::PageDown
        | KeyCode::Up
        | KeyCode::Down
        | KeyCode::Left
        | KeyCode::Right
        | KeyCode::RightAlt
        | KeyCode::RightCtrl
        | KeyCode::LeftMeta
        | KeyCode::RightMeta => true,
        _ => false,
    };
    let vk: u16 = match key {
        KeyCode::A => 0x41u16,
        KeyCode::B => 0x42u16,
        KeyCode::C => 0x43u16,
        KeyCode::D => 0x44u16,
        KeyCode::E => 0x45u16,
        KeyCode::F => 0x46u16,
        KeyCode::G => 0x47u16,
        KeyCode::H => 0x48u16,
        KeyCode::I => 0x49u16,
        KeyCode::J => 0x4au16,
        KeyCode::K => 0x4bu16,
        KeyCode::L => 0x4cu16,
        KeyCode::M => 0x4du16,
        KeyCode::N => 0x4eu16,
        KeyCode::O => 0x4fu16,
        KeyCode::P => 0x50u16,
        KeyCode::Q => 0x51u16,
        KeyCode::R => 0x52u16,
        KeyCode::S => 0x53u16,
        KeyCode::T => 0x54u16,
        KeyCode::U => 0x55u16,
        KeyCode::V => 0x56u16,
        KeyCode::W => 0x57u16,
        KeyCode::X => 0x58u16,
        KeyCode::Y => 0x59u16,
        KeyCode::Z => 0x5au16,
        KeyCode::Key0 => 0x30u16,
        KeyCode::Key1 => 0x31u16,
        KeyCode::Key2 => 0x32u16,
        KeyCode::Key3 => 0x33u16,
        KeyCode::Key4 => 0x34u16,
        KeyCode::Key5 => 0x35u16,
        KeyCode::Key6 => 0x36u16,
        KeyCode::Key7 => 0x37u16,
        KeyCode::Key8 => 0x38u16,
        KeyCode::Key9 => 0x39u16,
        KeyCode::F1 => 0x70u16,
        KeyCode::F2 => 0x71u16,
        KeyCode::F3 => 0x72u16,
        KeyCode::F4 => 0x73u16,
        KeyCode::F5 => 0x74u16,
        KeyCode::F6 => 0x75u16,
        KeyCode::F7 => 0x76u16,
        KeyCode::F8 => 0x77u16,
        KeyCode::F9 => 0x78u16,
        KeyCode::F10 => 0x79u16,
        KeyCode::F11 => 0x7au16,
        KeyCode::F12 => 0x7bu16,
        KeyCode::LeftShift => 0xa0u16,
        KeyCode::RightShift => 0xa1u16,
        KeyCode::LeftCtrl => 0xa2u16,
        KeyCode::RightCtrl => 0xa3u16,
        KeyCode::LeftAlt => 0xa4u16,
        KeyCode::RightAlt => 0xa5u16,
        KeyCode::LeftMeta => 0x5bu16,
        KeyCode::RightMeta => 0x5cu16,
        KeyCode::Up => 0x26u16,
        KeyCode::Down => 0x28u16,
        KeyCode::Left => 0x25u16,
        KeyCode::Right => 0x27u16,
        KeyCode::Home => 0x24u16,
        KeyCode::End => 0x23u16,
        KeyCode::PageUp => 0x21u16,
        KeyCode::PageDown => 0x22u16,
        KeyCode::Backspace => 0x08u16,
        KeyCode::Delete => 0x2eu16,
        KeyCode::Tab => 0x09u16,
        KeyCode::Enter => 0x0du16,
        KeyCode::Space => 0x20u16,
        KeyCode::Escape => 0x1bu16,
        KeyCode::Insert => 0x2du16,
        KeyCode::Minus => 0xbdu16,
        KeyCode::Equal => 0xbbu16,
        KeyCode::LeftBracket => 0xdbu16,
        KeyCode::RightBracket => 0xddu16,
        KeyCode::Backslash => 0xdcu16,
        KeyCode::Semicolon => 0xbau16,
        KeyCode::Apostrophe => 0xdeu16,
        KeyCode::Grave => 0xc0u16,
        KeyCode::Comma => 0xbcu16,
        KeyCode::Period => 0xbeu16,
        KeyCode::Slash => 0xbfu16,
        KeyCode::CapsLock => 0x14u16,
        KeyCode::NumLock => 0x90u16,
        _ => return None,
    };
    Some((vk, extended))
}

/// The keys to register on the virtual keyboard.
pub fn supported_keys() -> (codes: Vec<u16>)
    ensures
        codes@ == supported_codes(),
{
    vec![
        30u16, 48u16, 46u16, 32u16, 18u16, 33u16, 34u16, 35u16, 23u16, 36u16, 37u16,
        38u16, 50u16, 49u16, 24u16, 25u16, 16u16, 19u16, 31u16, 20u16, 22u16, 47u16,
        17u16, 45u16, 21u16, 44u16, 11u16, 2u16, 3u16, 4u16, 5u16, 6u16, 7u16, 8u16,
        9u16, 10u16, 59u16, 60u16, 61u16, 62u16, 63u16, 64u16, 65u16, 66u16, 67u16,
        68u16, 87u16, 88u16, 42u16, 54u16, 29u16, 97u16, 56u16, 100u16, 125u16, 126u16,
        103u16, 108u16, 105u16, 106u16, 102u16, 107u16, 104u16, 109u16, 14u16, 111u16,
        15u16, 28u16, 57u16, 1u16, 110u16, 12u16, 13u16, 26u16, 27u16, 43u16, 39u16,
        40u16, 41u16, 51u16, 52u16, 53u16, 58u16, 69u16, 70u16, 210u16, 119u16,
    ]
}

/// Every key that may be pressed is one that the virtual keyboard has: the
/// system takes no event for a key that was not registered.
pub proof fn law_every_key_is_registered(key: KeyCode)
    ensures
        supported_codes().contains(evdev_code(key)),
{
    let codes = supported_codes();
    match key {
        KeyCode::A => assert(codes[0] == 30),
        KeyCode::B => assert(codes[1] == 48),
        KeyCode::C => assert(codes[2] == 46),
        KeyCode::D => assert(codes[3] == 32),
        KeyCode::E => assert(codes[4] == 18),
        KeyCode::F => assert(codes[5] == 33),
        KeyCode::G => assert(codes[6] == 34),
        KeyCode::H => assert(codes[7] == 35),
        KeyCode::I => assert(codes[8] == 23),
        KeyCode::J => assert(codes[9] == 36),
        KeyCode::K => assert(codes[10] == 37),
        KeyCode::L => assert(codes[11] == 38),
        KeyCode::M => assert(codes[12] == 50),
        KeyCode::N => assert(codes[13] == 49),
        KeyCode::O => assert(codes[14] == 24),
        KeyCode::P => assert(codes[15] == 25),
        KeyCode::Q => assert(codes[16] == 16),
        KeyCode::R => assert(codes[17] == 19),
        KeyCode::S => assert(codes[18] == 31),
        KeyCode::T => assert(codes[19] == 20),
        KeyCode::U => assert(codes[20] == 22),
        KeyCode::V => assert(codes[21] == 47),
        KeyCode::W => assert(codes[22] == 17),
        KeyCode::X => assert(codes[23] == 45),
        KeyCode::Y => assert(codes[24] == 21),
        KeyCode::Z => assert(codes[25] == 44),
        KeyCode::Key0 => assert(codes[26] == 11),
        KeyCode::Key1 => assert(codes[27] == 2),
        KeyCode::Key2 => assert(codes[28] == 3),
        KeyCode::Key3 => assert(codes[29] == 4),
        KeyCode::Key4 => assert(codes[30] == 5),
        KeyCode::Key5 => assert(codes[31] == 6),
        KeyCode::Key6 => assert(codes[32] == 7),
        KeyCode::Key7 => assert(codes[33] == 8),
        KeyCode::Key8 => assert(codes[34] == 9),
        KeyCode::Key9 => assert(codes[35] == 10),
        KeyCode::F1 => assert(codes[36] == 59),
        KeyCode::F2 => assert(codes[37] == 60),
        KeyCode::F3 => assert(codes[38] == 61),
        KeyCode::F4 => assert(codes[39] == 62),
        KeyCode::F5 => assert(codes[40] == 63),
        KeyCode::F6 => assert(codes[41] == 64),
        KeyCode::F7 => assert(codes[42] == 65),
        KeyCode::F8 => assert(codes[43] == 66),
        KeyCode::F9 => assert(codes[44] == 67),
        KeyCode::F10 => assert(codes[45] == 68),
        KeyCode::F11 => assert(codes[46] == 87),
        KeyCode::F12 => assert(codes[47] == 88),
        KeyCode::LeftShift => assert(codes[48] == 42),
        KeyCode::RightShift => assert(codes[49] == 54),
        KeyCode::LeftCtrl => assert(codes[50] == 29),
        KeyCode::RightCtrl => assert(codes[51] == 97),
        KeyCode::LeftAlt => assert(codes[52] == 56),
        KeyCode::RightAlt => assert(codes[53] == 100),
        KeyCode::LeftMeta => assert(codes[54] == 125),
        KeyCode::RightMeta => assert(codes[55] == 126),
        KeyCode::Up => assert(codes[56] == 103),
        KeyCode::Down => assert(codes[57] == 108),
        KeyCode::Left => assert(codes[58] == 105),
        KeyCode::Right => assert(codes[59] == 106),
        KeyCode::Home => assert(codes[60] == 102),
        KeyCode::End => assert(codes[61] == 107),
        KeyCode::PageUp => assert(codes[62] == 104),
        KeyCode::PageDown => assert(codes[63] == 109),
        KeyCode::Backspace => assert(codes[64] == 14),
        KeyCode::Delete => assert(codes[65] == 111),
        KeyCode::Tab => assert(codes[66] == 15),
        KeyCode::Enter => assert(codes[67] == 28),
        KeyCode::Space => assert(codes[68] == 57),
        KeyCode::Escape => assert(codes[69] == 1),
        KeyCode::Insert => assert(codes[70] == 110),
        KeyCode::Minus => assert(codes[71] == 12),
        KeyCode::Equal => assert(codes[72] == 13),
        KeyCode::LeftBracket => assert(codes[73] == 26),
        KeyCode::RightBracket => assert(codes[74] == 27),
        KeyCode::Backslash => assert(codes[75] == 43),
        KeyCode::Semicolon => assert(codes[76] == 39),
        KeyCode::Apostrophe => assert(codes[77] == 40),
        KeyCode::Grave => assert(codes[78] == 41),
        KeyCode::Comma => assert(codes[79] == 51),
        KeyCode::Period => assert(codes[80] == 52),
        KeyCode::Slash => assert(codes[81] == 53),
        KeyCode::CapsLock => assert(codes[82] == 58),
        KeyCode::NumLock => assert(codes[83] == 69),
        KeyCode::ScrollLock => assert(codes[84] == 70),
        KeyCode::PrintScreen => assert(codes[85] == 210),
        KeyCode::Pause => assert(codes[86] == 119),
    }
}

/// No two keys share a number, on Linux or on Windows: what was pressed can be
/// told from what was sent.
pub proof fn law_keys_are_told_apart(a: KeyCode, b: KeyCode)
    requires
        a != b,
    ensures
        evdev_code(a) != evdev_code(b),
        windows_vk(a) is Some && windows_vk(b) is Some ==> windows_vk(a) != windows_vk(b),
{
}

/// A key that Windows lacks here is one that the keyboard of symbols lacks too.
pub proof fn law_symbols_are_on_windows(key: KeyCode)
    requires
        symbol_key(key) is Some,
    ensures
        windows_vk(key) is Some,
{
}

/// The typing keys lie in rows: Linux numbers each row from left to right, digits from
/// two, the upper letters from sixteen, the middle ones from thirty and the lower ones
/// from forty-three on.
pub proof fn law_rows_are_numbered_from_the_left(
    key: KeyCode,
    code: u16,
    symbol: Option<SymbolKey>,
    i: int,
)
    requires
        call_ensures(keycode_to_evdev, (key,), code),
        call_ensures(keycode_to_enigo, (key,), symbol),
    ensures
        0 <= i < 12 && symbol == Some(SymbolKey::Unicode("1234567890-="@[i])) ==> code == 2 + i,
        0 <= i < 12 && symbol == Some(SymbolKey::Unicode("qwertyuiop[]"@[i])) ==> code == 16 + i,
        0 <= i < 12 && symbol == Some(SymbolKey::Unicode("asdfghjkl;'`"@[i])) ==> code == 30 + i,
        0 <= i < 11 && symbol == Some(SymbolKey::Unicode("\\zxcvbnm,./"@[i])) ==> code == 43 + i,
{
    reveal_strlit("1234567890-=");
    reveal_strlit("qwertyuiop[]");
    reveal_strlit("asdfghjkl;'`");
    reveal_strlit("\\zxcvbnm,./");
}

/// The letters in the order of the alphabet.
pub open spec fn letters() -> Seq<KeyCode> {
    seq![
        KeyCode::A, KeyCode::B, KeyCode::C, KeyCode::D, KeyCode::E, KeyCode::F, KeyCode::G,
        KeyCode::H, KeyCode::I, KeyCode::J, KeyCode::K, KeyCode::L, KeyCode::M, KeyCode::N,
        KeyCode::O, KeyCode::P, KeyCode::Q, KeyCode::R, KeyCode::S, KeyCode::T, KeyCode::U,
        KeyCode::V, KeyCode::W, KeyCode::X, KeyCode::Y, KeyCode::Z,
    ]
}

/// The digits in their order.
pub open spec fn digits() -> Seq<KeyCode> {
    seq![
        KeyCode::Key0, KeyCode::Key1, KeyCode::Key2, KeyCode::Key3, KeyCode::Key4, KeyCode::Key5,
        KeyCode::Key6, KeyCode::Key7, KeyCode::Key8, KeyCode::Key9,
    ]
}

/// The function keys in their order.
pub open spec fn function_keys() -> Seq<KeyCode> {
    seq![
        KeyCode::F1, KeyCode::F2, KeyCode::F3, KeyCode::F4, KeyCode::F5, KeyCode::F6, KeyCode::F7,
        KeyCode::F8, KeyCode::F9, KeyCode::F10, KeyCode::F11, KeyCode::F12,
    ]
}

/// Windows numbers letters by their capitals and digits by their characters, and both
/// stand for that character on a keyboard of symbols; the function keys are numbered on.
pub proof fn law_letters_and_digits_are_their_characters(
    key: KeyCode,
    code: u16,
    symbol: Option<SymbolKey>,
    vk: Option<(u16, bool)>,
    i: int,
)
    requires
        call_ensures(keycode_to_evdev, (key,), code),
        call_ensures(keycode_to_enigo, (key,), symbol),
        call_ensures(keycode_to_windows_vk, (key,), vk),
    ensures
        0 <= i < 26 && key == letters()[i] ==> vk == Some(((0x41 + i) as u16, false)) && symbol
            == Some(SymbolKey::Unicode((0x61 + i) as char)),
        0 <= i < 10 && key == digits()[i] ==> vk == Some(((0x30 + i) as u16, false)) && symbol
            == Some(SymbolKey::Unicode((0x30 + i) as char)),
        0 <= i < 12 && key == function_keys()[i] ==> vk == Some(((0x70 + i) as u16, false)),
        0 <= i < 10 && key == function_keys()[i] ==> code == 59 + i,
        10 <= i < 12 && key == function_keys()[i] ==> code == 77 + i,
{
}

/// What moves around a text is numbered in a block on Windows, and is extended, as are the
/// right modifiers and those of the system; nothing else is.
pub proof fn law_extended_keys(key: KeyCode, vk: Option<(u16, bool)>)
    requires
        call_ensures(keycode_to_windows_vk, (key,), vk),
    ensures
        key == KeyCode::PageUp ==> vk == Some((0x21u16, true)),
        key == KeyCode::PageDown ==> vk == Some((0x22u16, true)),
        key == KeyCode::End ==> vk == Some((0x23u16, true)),
        key == KeyCode::Home ==> vk == Some((0x24u16, true)),
        key == KeyCode::Left ==> vk == Some((0x25u16, true)),
        key == KeyCode::Up ==> vk == Some((0x26u16, true)),
        key == KeyCode::Right ==> vk == Some((0x27u16, true)),
        key == KeyCode::Down ==> vk == Some((0x28u16, true)),
        key == KeyCode::Insert ==> vk == Some((0x2du16, true)),
        key == KeyCode::Delete ==> vk == Some((0x2eu16, true)),
        key == KeyCode::LeftMeta ==> vk == Some((0x5bu16, true)),
        key == KeyCode::RightMeta ==> vk == Some((0x5cu16, true)),
        key == KeyCode::LeftShift ==> vk == Some((0xa0u16, false)),
        key == KeyCode::RightShift ==> vk == Some((0xa1u16, false)),
        key == KeyCode::LeftCtrl ==> vk == Some((0xa2u16, false)),
        key == KeyCode::RightCtrl ==> vk == Some((0xa3u16, true)),
        key == KeyCode::LeftAlt ==> vk == Some((0xa4u16, false)),
        key == KeyCode::RightAlt ==> vk == Some((0xa5u16, true)),
        vk matches Some((n, true)) ==> 0x21 <= n <= 0x28 || n == 0x2d || n == 0x2e || n == 0x5b || n
            == 0x5c || n == 0xa3 || n == 0xa5,
{
}

/// The keys that type no symbol or edit are what Windows and Linux have them for, and each
/// modifier is one symbol whatever its side.
pub proof fn law_editing_keys(
    key: KeyCode,
    code: u16,
    symbol: Option<SymbolKey>,
    vk: Option<(u16, bool)>,
)
    requires
        call_ensures(keycode_to_evdev, (key,), code),
        call_ensures(keycode_to_enigo, (key,), symbol),
        call_ensures(keycode_to_windows_vk, (key,), vk),
    ensures
        key == KeyCode::Escape ==> code == 1 && vk == Some((0x1bu16, false)),
        key == KeyCode::Backspace ==> code == 14 && vk == Some((0x08u16, false)),
        key == KeyCode::Tab ==> code == 15 && vk == Some((0x09u16, false)),
        key == KeyCode::Enter ==> code == 28 && vk == Some((0x0du16, false)),
        key == KeyCode::Space ==> code == 57 && vk == Some((0x20u16, false)),
        key == KeyCode::CapsLock ==> code == 58 && vk == Some((0x14u16, false)),
        key == KeyCode::NumLock ==> code == 69 && vk == Some((0x90u16, false)),
        key == KeyCode::LeftCtrl ==> code == 29,
        key == KeyCode::LeftShift ==> code == 42,
        key == KeyCode::RightShift ==> code == 54,
        key == KeyCode::LeftAlt ==> code == 56,
        key == KeyCode::RightCtrl ==> code == 97,
        key == KeyCode::RightAlt ==> code == 100,
        key == KeyCode::LeftMeta ==> code == 125,
        key == KeyCode::RightMeta ==> code == 126,
        key == KeyCode::Home ==> code == 102,
        key == KeyCode::Up ==> code == 103,
        key == KeyCode::PageUp ==> code == 104,
        key == KeyCode::Left ==> code == 105,
        key == KeyCode::Right ==> code == 106,
        key == KeyCode::End ==> code == 107,
        key == KeyCode::Down ==> code == 108,
        key == KeyCode::PageDown ==> code == 109,
        key == KeyCode::Insert ==> code == 110,
        key == KeyCode::Delete ==> code == 111,
        key == KeyCode::Minus ==> vk == Some((0xbdu16, false)),
        key == KeyCode::Equal ==> vk == Some((0xbbu16, false)),
        key == KeyCode::Semicolon ==> vk == Some((0xbau16, false)),
        key == KeyCode::Comma ==> vk == Some((0xbcu16, false)),
        key == KeyCode::Period ==> vk == Some((0xbeu16, false)),
        key == KeyCode::Slash ==> vk == Some((0xbfu16, false)),
        key == KeyCode::Grave ==> vk == Some((0xc0u16, false)),
        key == KeyCode::LeftBracket ==> vk == Some((0xdbu16, false)),
        key == KeyCode::Backslash ==> vk == Some((0xdcu16, false)),
        key == KeyCode::RightBracket ==> vk == Some((0xddu16, false)),
        key == KeyCode::Apostrophe ==> vk == Some((0xdeu16, false)),
        symbol == Some(SymbolKey::Shift) <==> key == KeyCode::LeftShift || key
            == KeyCode::RightShift,
        symbol == Some(SymbolKey::Control) <==> key == KeyCode::LeftCtrl || key
            == KeyCode::RightCtrl,
        symbol == Some(SymbolKey::Alt) <==> key == KeyCode::LeftAlt || key == KeyCode::RightAlt,
        symbol == Some(SymbolKey::Meta) <==> key == KeyCode::LeftMeta || key == KeyCode::RightMeta,
        symbol == Some(SymbolKey::UpArrow) <==> key == KeyCode::Up,
        symbol == Some(SymbolKey::DownArrow) <==> key == KeyCode::Down,
        symbol == Some(SymbolKey::LeftArrow) <==> key == KeyCode::Left,
        symbol == Some(SymbolKey::RightArrow) <==> key == KeyCode::Right,
        symbol == Some(SymbolKey::Home) <==> key == KeyCode::Home,
        symbol == Some(SymbolKey::End) <==> key == KeyCode::End,
        symbol == Some(SymbolKey::PageUp) <==> key == KeyCode::PageUp,
        symbol == Some(SymbolKey::PageDown) <==> key == KeyCode::PageDown,
        symbol == Some(SymbolKey::Return) <==> key == KeyCode::Enter,
        symbol == Some(SymbolKey::Escape) <==> key == KeyCode::Escape,
        symbol is None <==> key == KeyCode::Insert || key == KeyCode::NumLock || key
            == KeyCode::ScrollLock || key == KeyCode::PrintScreen || key == KeyCode::Pause,
        vk is None <==> key == KeyCode::ScrollLock || key == KeyCode::PrintScreen || key
            == KeyCode::Pause,
{
}

} // verus!
