//! Keyboard and mouse identifiers in the game's binding-export numbering,
//! and the mappings between numeric wire codes and symbolic keys.

use vstd::prelude::*;

verus! {

/// A keyboard key, named as the game's binding export knows it.
#[derive(Clone, Copy, Debug, PartialEq, Eq, Hash, Structural)]
pub enum KeyCode {
    LeftAlt,
    LeftCtrl,
    LeftShift,
    Apostrophe,
    Backslash,
    CapsLock,
    Comma,
    Minus,
    Equals,
    Escape,
    LeftBracket,
    NumLock,
    Period,
    RightBracket,
    Semicolon,
    Slash,
    Print,
    Tilde,
    Backspace,
    Delete,
    Enter,
    Space,
    Tab,
    End,
    Home,
    Insert,
    Next,
    Prior,
    ArrowDown,
    ArrowLeft,
    ArrowRight,
    ArrowUp,
    F1,
    F2,
    F3,
    F4,
    F5,
    F6,
    F7,
    F8,
    F9,
    F10,
    F11,
    F12,
    Key0,
    Key1,
    Key2,
    Key3,
    Key4,
    Key5,
    Key6,
    Key7,
    Key8,
    Key9,
    A,
    B,
    C,
    D,
    E,
    F,
    G,
    H,
    I,
    J,
    K,
    L,
    M,
    N,
    O,
    P,
    Q,
    R,
    S,
    T,
    U,
    V,
    W,
    X,
    Y,
    Z,
    PlusNum,
    DecimalNum,
    DivideNum,
    MultiplyNum,
    Num0,
    Num1,
    Num2,
    Num3,
    Num4,
    Num5,
    Num6,
    Num7,
    Num8,
    Num9,
    EnterNum,
    MinusNum,
    RightAlt,
    RightCtrl,
    Pause,
    LeftWin,
    RightWin,
    Menu,
}

/// A mouse button; buttons past the middle one carry their index.
#[derive(Clone, Copy, Debug, PartialEq, Eq, Hash, Structural)]
pub enum MouseButton {
    Left,
    Right,
    Middle,
    X(u16),
}

impl KeyCode {
    /// The canonical numeric code of this key in the binding export.
    pub open spec fn spec_code(self) -> i32 {
        match self {
            KeyCode::LeftAlt => 0,
            KeyCode::LeftCtrl => 1,
            KeyCode::LeftShift => 2,
            KeyCode::Apostrophe => 3,
            KeyCode::Backslash => 4,
            KeyCode::CapsLock => 5,
            KeyCode::Comma => 6,
            KeyCode::Minus => 7,
            KeyCode::Equals => 8,
            KeyCode::Escape => 9,
            KeyCode::LeftBracket => 10,
            KeyCode::NumLock => 11,
            KeyCode::Period => 12,
            KeyCode::RightBracket => 13,
            KeyCode::Semicolon => 14,
            KeyCode::Slash => 15,
            KeyCode::Print => 16,
            KeyCode::Tilde => 17,
            KeyCode::Backspace => 18,
            KeyCode::Delete => 19,
            KeyCode::Enter => 20,
            KeyCode::Space => 21,
            KeyCode::Tab => 22,
            KeyCode::End => 23,
            KeyCode::Home => 24,
            KeyCode::Insert => 25,
            KeyCode::Next => 26,
            KeyCode::Prior => 27,
            KeyCode::ArrowDown => 28,
            KeyCode::ArrowLeft => 29,
            KeyCode::ArrowRight => 30,
            KeyCode::ArrowUp => 31,
            KeyCode::F1 => 32,
            KeyCode::F2 => 33,
            KeyCode::F3 => 34,
            KeyCode::F4 => 35,
            KeyCode::F5 => 36,
            KeyCode::F6 => 37,
            KeyCode::F7 => 38,
            KeyCode::F8 => 39,
            KeyCode::F9 => 40,
            KeyCode::F10 => 41,
            KeyCode::F11 => 42,
            KeyCode::F12 => 43,
            KeyCode::Key0 => 48,
            KeyCode::Key1 => 49,
            KeyCode::Key2 => 50,
            KeyCode::Key3 => 51,
            KeyCode::Key4 => 52,
            KeyCode::Key5 => 53,
            KeyCode::Key6 => 54,
            KeyCode::Key7 => 55,
            KeyCode::Key8 => 56,
            KeyCode::Key9 => 57,
            KeyCode::A => 65,
            KeyCode::B => 66,
            KeyCode::C => 67,
            KeyCode::D => 68,
            KeyCode::E => 69,
            KeyCode::F => 70,
            KeyCode::G => 71,
            KeyCode::H => 72,
            KeyCode::I => 73,
            KeyCode::J => 74,
            KeyCode::K => 75,
            KeyCode::L => 76,
            KeyCode::M => 77,
            KeyCode::N => 78,
            KeyCode::O => 79,
            KeyCode::P => 80,
            KeyCode::Q => 81,
            KeyCode::R => 82,
            KeyCode::S => 83,
            KeyCode::T => 84,
            KeyCode::U => 85,
            KeyCode::V => 86,
            KeyCode::W => 87,
            KeyCode::X => 88,
            KeyCode::Y => 89,
            KeyCode::Z => 90,
            KeyCode::PlusNum => 91,
            KeyCode::DecimalNum => 92,
            KeyCode::DivideNum => 93,
            KeyCode::MultiplyNum => 94,
            KeyCode::Num0 => 95,
            KeyCode::Num1 => 96,
            KeyCode::Num2 => 97,
            KeyCode::Num3 => 98,
            KeyCode::Num4 => 99,
            KeyCode::Num5 => 100,
            KeyCode::Num6 => 101,
            KeyCode::Num7 => 102,
            KeyCode::Num8 => 103,
            KeyCode::Num9 => 104,
            KeyCode::EnterNum => 105,
            KeyCode::MinusNum => 106,
            KeyCode::RightAlt => 109,
            KeyCode::RightCtrl => 110,
            KeyCode::Pause => 201,
            KeyCode::LeftWin => 202,
            KeyCode::RightWin => 203,
            KeyCode::Menu => 204,
        }
    }

    /// The canonical numeric code of this key in the binding export.
    pub fn code(self) -> (r: i32)
        ensures
            r == self.spec_code(),
    {
        match self {
            KeyCode::LeftAlt => 0,
            KeyCode::LeftCtrl => 1,
            KeyCode::LeftShift => 2,
            KeyCode::Apostrophe => 3,
            KeyCode::Backslash => 4,
            KeyCode::CapsLock => 5,
            KeyCode::Comma => 6,
            KeyCode::Minus => 7,
            KeyCode::Equals => 8,
            KeyCode::Escape => 9,
            KeyCode::LeftBracket => 10,
            KeyCode::NumLock => 11,
            KeyCode::Period => 12,
            KeyCode::RightBracket => 13,
            KeyCode::Semicolon => 14,
            KeyCode::Slash => 15,
            KeyCode::Print => 16,
            KeyCode::Tilde => 17,
            KeyCode::Backspace => 18,
            KeyCode::Delete => 19,
            KeyCode::Enter => 20,
            KeyCode::Space => 21,
            KeyCode::Tab => 22,
            KeyCode::End => 23,
            KeyCode::Home => 24,
            KeyCode::Insert => 25,
            KeyCode::Next => 26,
            KeyCode::Prior => 27,
            KeyCode::ArrowDown => 28,
            KeyCode::ArrowLeft => 29,
            KeyCode::ArrowRight => 30,
            KeyCode::ArrowUp => 31,
            KeyCode::F1 => 32,
            KeyCode::F2 => 33,
            KeyCode::F3 => 34,
            KeyCode::F4 => 35,
            KeyCode::F5 => 36,
            KeyCode::F6 => 37,
            KeyCode::F7 => 38,
            KeyCode::F8 => 39,
            KeyCode::F9 => 40,
            KeyCode::F10 => 41,
            KeyCode::F11 => 42,
            KeyCode::F12 => 43,
            KeyCode::Key0 => 48,
            KeyCode::Key1 => 49,
            KeyCode::Key2 => 50,
            KeyCode::Key3 => 51,
            KeyCode::Key4 => 52,
            KeyCode::Key5 => 53,
            KeyCode::Key6 => 54,
            KeyCode::Key7 => 55,
            KeyCode::Key8 => 56,
            KeyCode::Key9 => 57,
            KeyCode::A => 65,
            KeyCode::B => 66,
            KeyCode::C => 67,
            KeyCode::D => 68,
            KeyCode::E => 69,
            KeyCode::F => 70,
            KeyCode::G => 71,
            KeyCode::H => 72,
            KeyCode::I => 73,
            KeyCode::J => 74,
            KeyCode::K => 75,
            KeyCode::L => 76,
            KeyCode::M => 77,
            KeyCode::N => 78,
            KeyCode::O => 79,
            KeyCode::P => 80,
            KeyCode::Q => 81,
            KeyCode::R => 82,
            KeyCode::S => 83,
            KeyCode::T => 84,
            KeyCode::U => 85,
            KeyCode::V => 86,
            KeyCode::W => 87,
            KeyCode::X => 88,
            KeyCode::Y => 89,
            KeyCode::Z => 90,
            KeyCode::PlusNum => 91,
            KeyCode::DecimalNum => 92,
            KeyCode::DivideNum => 93,
            KeyCode::MultiplyNum => 94,
            KeyCode::Num0 => 95,
            KeyCode::Num1 => 96,
            KeyCode::Num2 => 97,
            KeyCode::Num3 => 98,
            KeyCode::Num4 => 99,
            KeyCode::Num5 => 100,
            KeyCode::Num6 => 101,
            KeyCode::Num7 => 102,
            KeyCode::Num8 => 103,
            KeyCode::Num9 => 104,
            KeyCode::EnterNum => 105,
            KeyCode::MinusNum => 106,
            KeyCode::RightAlt => 109,
            KeyCode::RightCtrl => 110,
            KeyCode::Pause => 201,
            KeyCode::LeftWin => 202,
            KeyCode::RightWin => 203,
            KeyCode::Menu => 204,
        }
    }
}

/// The key a numeric binding-export code denotes, if any. A few codes are
/// aliases of the canonical ones; the input-method codes map to nothing.
pub open spec fn spec_key_from_gw2_code(code: i32) -> Option<KeyCode> {
    match code {
        0 => Some(KeyCode::LeftAlt),
        1 => Some(KeyCode::LeftCtrl),
        2 => Some(KeyCode::LeftShift),
        3 => Some(KeyCode::Apostrophe),
        4 => Some(KeyCode::Backslash),
        5 => Some(KeyCode::CapsLock),
        6 => Some(KeyCode::Comma),
        7 => Some(KeyCode::Minus),
        8 => Some(KeyCode::Equals),
        9 => Some(KeyCode::Escape),
        10 => Some(KeyCode::LeftBracket),
        11 => Some(KeyCode::NumLock),
        12 => Some(KeyCode::Period),
        13 => Some(KeyCode::RightBracket),
        14 => Some(KeyCode::Semicolon),
        15 => Some(KeyCode::Slash),
        16 => Some(KeyCode::Print),
        17 => Some(KeyCode::Tilde),
        18 => Some(KeyCode::Backspace),
        19 => Some(KeyCode::Delete),
        20 => Some(KeyCode::Enter),
        21 => Some(KeyCode::Space),
        22 => Some(KeyCode::Tab),
        23 => Some(KeyCode::End),
        24 => Some(KeyCode::Home),
        25 => Some(KeyCode::Insert),
        26 => Some(KeyCode::Next),
        27 => Some(KeyCode::Prior),
        28 => Some(KeyCode::ArrowDown),
        29 => Some(KeyCode::ArrowLeft),
        30 => Some(KeyCode::ArrowRight),
        31 => Some(KeyCode::ArrowUp),
        32 => Some(KeyCode::F1),
        33 => Some(KeyCode::F2),
        34 => Some(KeyCode::F3),
        35 => Some(KeyCode::F4),
        36 => Some(KeyCode::F5),
        37 => Some(KeyCode::F6),
        38 => Some(KeyCode::F7),
        39 => Some(KeyCode::F8),
        40 => Some(KeyCode::F9),
        41 => Some(KeyCode::F10),
        42 => Some(KeyCode::F11),
        43 => Some(KeyCode::F12),
        48 => Some(KeyCode::Key0),
        49 => Some(KeyCode::Key1),
        50 => Some(KeyCode::Key2),
        51 => Some(KeyCode::Key3),
        52 => Some(KeyCode::Key4),
        53 => Some(KeyCode::Key5),
        54 => Some(KeyCode::Key6),
        55 => Some(KeyCode::Key7),
        56 => Some(KeyCode::Key8),
        57 => Some(KeyCode::Key9),
        65 => Some(KeyCode::A),
        66 => Some(KeyCode::B),
        67 => Some(KeyCode::C),
        68 => Some(KeyCode::D),
        69 => Some(KeyCode::E),
        70 => Some(KeyCode::F),
        71 => Some(KeyCode::G),
        72 => Some(KeyCode::H),
        73 => Some(KeyCode::I),
        74 => Some(KeyCode::J),
        75 => Some(KeyCode::K),
        76 => Some(KeyCode::L),
        77 => Some(KeyCode::M),
        78 => Some(KeyCode::N),
        79 => Some(KeyCode::O),
        80 => Some(KeyCode::P),
        81 => Some(KeyCode::Q),
        82 => Some(KeyCode::R),
        83 => Some(KeyCode::S),
        84 => Some(KeyCode::T),
        85 => Some(KeyCode::U),
        86 => Some(KeyCode::V),
        87 => Some(KeyCode::W),
        88 => Some(KeyCode::X),
        89 => Some(KeyCode::Y),
        90 => Some(KeyCode::Z),
        91 => Some(KeyCode::PlusNum),
        92 => Some(KeyCode::DecimalNum),
        93 => Some(KeyCode::DivideNum),
        94 => Some(KeyCode::MultiplyNum),
        95 => Some(KeyCode::Num0),
        96 => Some(KeyCode::Num1),
        97 => Some(KeyCode::Num2),
        98 => Some(KeyCode::Num3),
        99 => Some(KeyCode::Num4),
        100 => Some(KeyCode::Num5),
        101 => Some(KeyCode::Num6),
        102 => Some(KeyCode::Num7),
        103 => Some(KeyCode::Num8),
        104 => Some(KeyCode::Num9),
        105 => Some(KeyCode::EnterNum),
        106 => Some(KeyCode::MinusNum),
        109 => Some(KeyCode::RightAlt),
        110 => Some(KeyCode::RightCtrl),
        201 => Some(KeyCode::Pause),
        202 => Some(KeyCode::LeftWin),
        203 => Some(KeyCode::RightWin),
        204 => Some(KeyCode::Menu),
        111 => Some(KeyCode::Backslash),
        135 => Some(KeyCode::LeftShift),
        139 => Some(KeyCode::LeftCtrl),
        141 => Some(KeyCode::RightCtrl),
        _ => None,
    }
}

/// Decode a numeric binding-export code into a key.
pub fn key_from_gw2_code(code: i32) -> (r: Option<KeyCode>)
    ensures
        r == spec_key_from_gw2_code(code),
{
    match code {
        0 => Some(KeyCode::LeftAlt),
        1 => Some(KeyCode::LeftCtrl),
        2 => Some(KeyCode::LeftShift),
        3 => Some(KeyCode::Apostrophe),
        4 => Some(KeyCode::Backslash),
        5 => Some(KeyCode::CapsLock),
        6 => Some(KeyCode::Comma),
        7 => Some(KeyCode::Minus),
        8 => Some(KeyCode::Equals),
        9 => Some(KeyCode::Escape),
        10 => Some(KeyCode::LeftBracket),
        11 => Some(KeyCode::NumLock),
        12 => Some(KeyCode::Period),
        13 => Some(KeyCode::RightBracket),
        14 => Some(KeyCode::Semicolon),
        15 => Some(KeyCode::Slash),
        16 => Some(KeyCode::Print),
        17 => Some(KeyCode::Tilde),
        18 => Some(KeyCode::Backspace),
        19 => Some(KeyCode::Delete),
        20 => Some(KeyCode::Enter),
        21 => Some(KeyCode::Space),
        22 => Some(KeyCode::Tab),
        23 => Some(KeyCode::End),
        24 => Some(KeyCode::Home),
        25 => Some(KeyCode::Insert),
        26 => Some(KeyCode::Next),
        27 => Some(KeyCode::Prior),
        28 => Some(KeyCode::ArrowDown),
        29 => Some(KeyCode::ArrowLeft),
        30 => Some(KeyCode::ArrowRight),
        31 => Some(KeyCode::ArrowUp),
        32 => Some(KeyCode::F1),
        33 => Some(KeyCode::F2),
        34 => Some(KeyCode::F3),
        35 => Some(KeyCode::F4),
        36 => Some(KeyCode::F5),
        37 => Some(KeyCode::F6),
        38 => Some(KeyCode::F7),
        39 => Some(KeyCode::F8),
        40 => Some(KeyCode::F9),
        41 => Some(KeyCode::F10),
        42 => Some(KeyCode::F11),
        43 => Some(KeyCode::F12),
        48 => Some(KeyCode::Key0),
        49 => Some(KeyCode::Key1),
        50 => Some(KeyCode::Key2),
        51 => Some(KeyCode::Key3),
        52 => Some(KeyCode::Key4),
        53 => Some(KeyCode::Key5),
        54 => Some(KeyCode::Key6),
        55 => Some(KeyCode::Key7),
        56 => Some(KeyCode::Key8),
        57 => Some(KeyCode::Key9),
        65 => Some(KeyCode::A),
        66 => Some(KeyCode::B),
        67 => Some(KeyCode::C),
        68 => Some(KeyCode::D),
        69 => Some(KeyCode::E),
        70 => Some(KeyCode::F),
        71 => Some(KeyCode::G),
        72 => Some(KeyCode::H),
        73 => Some(KeyCode::I),
        74 => Some(KeyCode::J),
        75 => Some(KeyCode::K),
        76 => Some(KeyCode::L),
        77 => Some(KeyCode::M),
        78 => Some(KeyCode::N),
        79 => Some(KeyCode::O),
        80 => Some(KeyCode::P),
        81 => Some(KeyCode::Q),
        82 => Some(KeyCode::R),
        83 => Some(KeyCode::S),
        84 => Some(KeyCode::T),
        85 => Some(KeyCode::U),
        86 => Some(KeyCode::V),
        87 => Some(KeyCode::W),
        88 => Some(KeyCode::X),
        89 => Some(KeyCode::Y),
        90 => Some(KeyCode::Z),
        91 => Some(KeyCode::PlusNum),
        92 => Some(KeyCode::DecimalNum),
        93 => Some(KeyCode::DivideNum),
        94 => Some(KeyCode::MultiplyNum),
        95 => Some(KeyCode::Num0),
        96 => Some(KeyCode::Num1),
        97 => Some(KeyCode::Num2),
        98 => Some(KeyCode::Num3),
        99 => Some(KeyCode::Num4),
        100 => Some(KeyCode::Num5),
        101 => Some(KeyCode::Num6),
        102 => Some(KeyCode::Num7),
        103 => Some(KeyCode::Num8),
        104 => Some(KeyCode::Num9),
        105 => Some(KeyCode::EnterNum),
        106 => Some(KeyCode::MinusNum),
        109 => Some(KeyCode::RightAlt),
        110 => Some(KeyCode::RightCtrl),
        201 => Some(KeyCode::Pause),
        202 => Some(KeyCode::LeftWin),
        203 => Some(KeyCode::RightWin),
        204 => Some(KeyCode::Menu),
        111 => Some(KeyCode::Backslash),
        135 => Some(KeyCode::LeftShift),
        139 => Some(KeyCode::LeftCtrl),
        141 => Some(KeyCode::RightCtrl),
        _ => None,
    }
}

/// The mouse button a numeric binding-export code denotes, if any.
pub open spec fn spec_mouse_from_gw2_code(code: i32) -> Option<MouseButton> {
    if code == 0 {
        Some(MouseButton::Left)
    } else if code == 1 {
        Some(MouseButton::Right)
    } else if code == 2 {
        Some(MouseButton::Middle)
    } else if code == 3 {
        Some(MouseButton::X(1))
    } else if code == 4 {
        Some(MouseButton::X(2))
    } else if 5 <= code <= 20 {
        Some(MouseButton::X(code as u16))
    } else {
        None
    }
}

/// Decode a numeric binding-export code into a mouse button.
pub fn mouse_from_gw2_code(code: i32) -> (r: Option<MouseButton>)
    ensures
        r == spec_mouse_from_gw2_code(code),
{
    match code {
        0 => Some(MouseButton::Left),
        1 => Some(MouseButton::Right),
        2 => Some(MouseButton::Middle),
        3 => Some(MouseButton::X(1)),
        4 => Some(MouseButton::X(2)),
        5..=20 => Some(MouseButton::X(code as u16)),
        _ => None,
    }
}

/// Decoding a key's canonical code gives the key back.
pub proof fn lemma_key_code_round_trip(k: KeyCode)
    ensures
        spec_key_from_gw2_code(k.spec_code()) == Some(k),
{
}

} // verus!
