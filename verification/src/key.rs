//! Physical keys and the table that translates legacy numeric key codes.

use vstd::prelude::*;

verus! {

/// A physical key of the keyboard, independent of any numeric code a platform
/// or a pack format gives it.
#[derive(Clone, Copy, Debug, PartialEq, Eq, Structural, Hash)]
pub enum Key {
    Alt,
    AltGr,
    Backspace,
    CapsLock,
    ControlLeft,
    ControlRight,
    Delete,
    DownArrow,
    End,
    Escape,
    F1,
    F10,
    F11,
    F12,
    F2,
    F3,
    F4,
    F5,
    F6,
    F7,
    F8,
    F9,
    Home,
    LeftArrow,
    MetaLeft,
    MetaRight,
    PageDown,
    PageUp,
    Return,
    RightArrow,
    ShiftLeft,
    ShiftRight,
    Space,
    Tab,
    UpArrow,
    PrintScreen,
    ScrollLock,
    Pause,
    NumLock,
    BackQuote,
    Num1,
    Num2,
    Num3,
    Num4,
    Num5,
    Num6,
    Num7,
    Num8,
    Num9,
    Num0,
    Minus,
    Equal,
    KeyQ,
    KeyW,
    KeyE,
    KeyR,
    KeyT,
    KeyY,
    KeyU,
    KeyI,
    KeyO,
    KeyP,
    LeftBracket,
    RightBracket,
    KeyA,
    KeyS,
    KeyD,
    KeyF,
    KeyG,
    KeyH,
    KeyJ,
    KeyK,
    KeyL,
    SemiColon,
    Quote,
    BackSlash,
    IntlBackslash,
    KeyZ,
    KeyX,
    KeyC,
    KeyV,
    KeyB,
    KeyN,
    KeyM,
    Comma,
    Dot,
    Slash,
    Insert,
    KpReturn,
    KpMinus,
    KpPlus,
    KpMultiply,
    KpDivide,
    Kp0,
    Kp1,
    Kp2,
    Kp3,
    Kp4,
    Kp5,
    Kp6,
    Kp7,
    Kp8,
    Kp9,
    KpDelete,
    Function,
    /// A code that the table does not list, with the code itself.
    Unknown(u32),
}

impl Key {
    /// The canonical identifier of the key: the text under which a pack
    /// configuration names it. Every unlisted code shares the fallback
    /// identifier.
    pub open spec fn name(self) -> Seq<char> {
        match self {
            Key::Alt => "Alt"@,
            Key::AltGr => "AltGr"@,
            Key::Backspace => "Backspace"@,
            Key::CapsLock => "CapsLock"@,
            Key::ControlLeft => "ControlLeft"@,
            Key::ControlRight => "ControlRight"@,
            Key::Delete => "Delete"@,
            Key::DownArrow => "DownArrow"@,
            Key::End => "End"@,
            Key::Escape => "Escape"@,
            Key::F1 => "F1"@,
            Key::F10 => "F10"@,
            Key::F11 => "F11"@,
            Key::F12 => "F12"@,
            Key::F2 => "F2"@,
            Key::F3 => "F3"@,
            Key::F4 => "F4"@,
            Key::F5 => "F5"@,
            Key::F6 => "F6"@,
            Key::F7 => "F7"@,
            Key::F8 => "F8"@,
            Key::F9 => "F9"@,
            Key::Home => "Home"@,
            Key::LeftArrow => "LeftArrow"@,
            Key::MetaLeft => "MetaLeft"@,
            Key::MetaRight => "MetaRight"@,
            Key::PageDown => "PageDown"@,
            Key::PageUp => "PageUp"@,
            Key::Return => "Return"@,
            Key::RightArrow => "RightArrow"@,
            Key::ShiftLeft => "ShiftLeft"@,
            Key::ShiftRight => "ShiftRight"@,
            Key::Space => "Space"@,
            Key::Tab => "Tab"@,
            Key::UpArrow => "UpArrow"@,
            Key::PrintScreen => "PrintScreen"@,
            Key::ScrollLock => "ScrollLock"@,
            Key::Pause => "Pause"@,
            Key::NumLock => "NumLock"@,
            Key::BackQuote => "BackQuote"@,
            Key::Num1 => "Num1"@,
            Key::Num2 => "Num2"@,
            Key::Num3 => "Num3"@,
            Key::Num4 => "Num4"@,
            Key::Num5 => "Num5"@,
            Key::Num6 => "Num6"@,
            Key::Num7 => "Num7"@,
            Key::Num8 => "Num8"@,
            Key::Num9 => "Num9"@,
            Key::Num0 => "Num0"@,
            Key::Minus => "Minus"@,
            Key::Equal => "Equal"@,
            Key::KeyQ => "KeyQ"@,
            Key::KeyW => "KeyW"@,
            Key::KeyE => "KeyE"@,
            Key::KeyR => "KeyR"@,
            Key::KeyT => "KeyT"@,
            Key::KeyY => "KeyY"@,
            Key::KeyU => "KeyU"@,
            Key::KeyI => "KeyI"@,
            Key::KeyO => "KeyO"@,
            Key::KeyP => "KeyP"@,
            Key::LeftBracket => "LeftBracket"@,
            Key::RightBracket => "RightBracket"@,
            Key::KeyA => "KeyA"@,
            Key::KeyS => "KeyS"@,
            Key::KeyD => "KeyD"@,
            Key::KeyF => "KeyF"@,
            Key::KeyG => "KeyG"@,
            Key::KeyH => "KeyH"@,
            Key::KeyJ => "KeyJ"@,
            Key::KeyK => "KeyK"@,
            Key::KeyL => "KeyL"@,
            Key::SemiColon => "SemiColon"@,
            Key::Quote => "Quote"@,
            Key::BackSlash => "BackSlash"@,
            Key::IntlBackslash => "IntlBackslash"@,
            Key::KeyZ => "KeyZ"@,
            Key::KeyX => "KeyX"@,
            Key::KeyC => "KeyC"@,
            Key::KeyV => "KeyV"@,
            Key::KeyB => "KeyB"@,
            Key::KeyN => "KeyN"@,
            Key::KeyM => "KeyM"@,
            Key::Comma => "Comma"@,
            Key::Dot => "Dot"@,
            Key::Slash => "Slash"@,
            Key::Insert => "Insert"@,
            Key::KpReturn => "KpReturn"@,
            Key::KpMinus => "KpMinus"@,
            Key::KpPlus => "KpPlus"@,
            Key::KpMultiply => "KpMultiply"@,
            Key::KpDivide => "KpDivide"@,
            Key::Kp0 => "Kp0"@,
            Key::Kp1 => "Kp1"@,
            Key::Kp2 => "Kp2"@,
            Key::Kp3 => "Kp3"@,
            Key::Kp4 => "Kp4"@,
            Key::Kp5 => "Kp5"@,
            Key::Kp6 => "Kp6"@,
            Key::Kp7 => "Kp7"@,
            Key::Kp8 => "Kp8"@,
            Key::Kp9 => "Kp9"@,
            Key::KpDelete => "KpDelete"@,
            Key::Function => "Function"@,
            Key::Unknown(_) => "Unknown"@,
        }
    }

    /// The canonical identifier as an owned string.
    pub fn identifier(&self) -> (text: String)
        ensures
            text@ == self.name(),
    {
        let text: &str = match self {
            Key::Alt => "Alt",
            Key::AltGr => "AltGr",
            Key::Backspace => "Backspace",
            Key::CapsLock => "CapsLock",
            Key::ControlLeft => "ControlLeft",
            Key::ControlRight => "ControlRight",
            Key::Delete => "Delete",
            Key::DownArrow => "DownArrow",
            Key::End => "End",
            Key::Escape => "Escape",
            Key::F1 => "F1",
            Key::F10 => "F10",
            Key::F11 => "F11",
            Key::F12 => "F12",
            Key::F2 => "F2",
            Key::F3 => "F3",
            Key::F4 => "F4",
            Key::F5 => "F5",
            Key::F6 => "F6",
            Key::F7 => "F7",
            Key::F8 => "F8",
            Key::F9 => "F9",
            Key::Home => "Home",
            Key::LeftArrow => "LeftArrow",
            Key::MetaLeft => "MetaLeft",
            Key::MetaRight => "MetaRight",
            Key::PageDown => "PageDown",
            Key::PageUp => "PageUp",
            Key::Return => "Return",
            Key::RightArrow => "RightArrow",
            Key::ShiftLeft => "ShiftLeft",
            Key::ShiftRight => "ShiftRight",
            Key::Space => "Space",
            Key::Tab => "Tab",
            Key::UpArrow => "UpArrow",
            Key::PrintScreen => "PrintScreen",
            Key::ScrollLock => "ScrollLock",
            Key::Pause => "Pause",
            Key::NumLock => "NumLock",
            Key::BackQuote => "BackQuote",
            Key::Num1 => "Num1",
            Key::Num2 => "Num2",
            Key::Num3 => "Num3",
            Key::Num4 => "Num4",
            Key::Num5 => "Num5",
            Key::Num6 => "Num6",
            Key::Num7 => "Num7",
            Key::Num8 => "Num8",
            Key::Num9 => "Num9",
            Key::Num0 => "Num0",
            Key::Minus => "Minus",
            Key::Equal => "Equal",
            Key::KeyQ => "KeyQ",
            Key::KeyW => "KeyW",
            Key::KeyE => "KeyE",
            Key::KeyR => "KeyR",
            Key::KeyT => "KeyT",
            Key::KeyY => "KeyY",
            Key::KeyU => "KeyU",
            Key::KeyI => "KeyI",
            Key::KeyO => "KeyO",
            Key::KeyP => "KeyP",
            Key::LeftBracket => "LeftBracket",
            Key::RightBracket => "RightBracket",
            Key::KeyA => "KeyA",
            Key::KeyS => "KeyS",
            Key::KeyD => "KeyD",
            Key::KeyF => "KeyF",
            Key::KeyG => "KeyG",
            Key::KeyH => "KeyH",
            Key::KeyJ => "KeyJ",
            Key::KeyK => "KeyK",
            Key::KeyL => "KeyL",
            Key::SemiColon => "SemiColon",
            Key::Quote => "Quote",
            Key::BackSlash => "BackSlash",
            Key::IntlBackslash => "IntlBackslash",
            Key::KeyZ => "KeyZ",
            Key::KeyX => "KeyX",
            Key::KeyC => "KeyC",
            Key::KeyV => "KeyV",
            Key::KeyB => "KeyB",
            Key::KeyN => "KeyN",
            Key::KeyM => "KeyM",
            Key::Comma => "Comma",
            Key::Dot => "Dot",
            Key::Slash => "Slash",
            Key::Insert => "Insert",
            Key::KpReturn => "KpReturn",
            Key::KpMinus => "KpMinus",
            Key::KpPlus => "KpPlus",
            Key::KpMultiply => "KpMultiply",
            Key::KpDivide => "KpDivide",
            Key::Kp0 => "Kp0",
            Key::Kp1 => "Kp1",
            Key::Kp2 => "Kp2",
            Key::Kp3 => "Kp3",
            Key::Kp4 => "Kp4",
            Key::Kp5 => "Kp5",
            Key::Kp6 => "Kp6",
            Key::Kp7 => "Kp7",
            Key::Kp8 => "Kp8",
            Key::Kp9 => "Kp9",
            Key::KpDelete => "KpDelete",
            Key::Function => "Function",
            Key::Unknown(_) => "Unknown",
        };
        text.to_owned()
    }
}

/// The key that a legacy numeric code stands for. Codes outside the table
/// stand for `Key::Unknown` and keep their value.
pub open spec fn legacy_key(code: u16) -> Key {
    match code {
        1 => Key::Escape,
        59 => Key::F1,
        60 => Key::F2,
        61 => Key::F3,
        62 => Key::F4,
        63 => Key::F5,
        64 => Key::F6,
        65 => Key::F7,
        66 => Key::F8,
        67 => Key::F9,
        68 => Key::F10,
        87 => Key::F11,
        88 => Key::F12,
        41 => Key::BackQuote,
        2 => Key::Num1,
        3 => Key::Num2,
        4 => Key::Num3,
        5 => Key::Num4,
        6 => Key::Num5,
        7 => Key::Num6,
        8 => Key::Num7,
        9 => Key::Num8,
        10 => Key::Num9,
        11 => Key::Num0,
        12 => Key::Minus,
        13 | 3597 => Key::Equal,
        14 => Key::Backspace,
        15 => Key::Tab,
        58 => Key::CapsLock,
        30 => Key::KeyA,
        48 => Key::KeyB,
        46 => Key::KeyC,
        32 => Key::KeyD,
        18 => Key::KeyE,
        33 => Key::KeyF,
        34 => Key::KeyG,
        35 => Key::KeyH,
        23 => Key::KeyI,
        36 => Key::KeyJ,
        37 => Key::KeyK,
        38 => Key::KeyL,
        50 => Key::KeyM,
        49 => Key::KeyN,
        24 => Key::KeyO,
        25 => Key::KeyP,
        16 => Key::KeyQ,
        19 => Key::KeyR,
        31 => Key::KeyS,
        20 => Key::KeyT,
        22 => Key::KeyU,
        47 => Key::KeyV,
        17 => Key::KeyW,
        45 => Key::KeyX,
        21 => Key::KeyY,
        44 => Key::KeyZ,
        26 => Key::LeftBracket,
        27 => Key::RightBracket,
        43 => Key::BackSlash,
        39 => Key::SemiColon,
        40 => Key::Quote,
        28 => Key::Return,
        51 => Key::Comma,
        52 | 83 => Key::Dot,
        53 => Key::Slash,
        57 => Key::Space,
        3639 => Key::PrintScreen,
        70 => Key::ScrollLock,
        3653 => Key::Pause,
        3636 | 61010 => Key::Insert,
        3667 | 61011 => Key::Delete,
        3655 | 60999 => Key::Home,
        3663 | 61007 => Key::End,
        3657 | 61001 => Key::PageUp,
        3665 | 61009 => Key::PageDown,
        57416 | 61000 => Key::UpArrow,
        57419 | 61003 => Key::LeftArrow,
        57421 | 61005 => Key::RightArrow,
        57424 | 61008 => Key::DownArrow,
        42 => Key::ShiftLeft,
        54 => Key::ShiftRight,
        29 => Key::ControlLeft,
        3613 => Key::ControlRight,
        56 => Key::Alt,
        3640 => Key::AltGr,
        3675 => Key::MetaLeft,
        3676 => Key::MetaRight,
        69 => Key::NumLock,
        3637 => Key::KpDivide,
        55 => Key::KpMultiply,
        74 => Key::KpMinus,
        78 => Key::KpPlus,
        3612 => Key::KpReturn,
        79 => Key::Kp1,
        80 => Key::Kp2,
        81 => Key::Kp3,
        75 => Key::Kp4,
        76 => Key::Kp5,
        77 => Key::Kp6,
        71 => Key::Kp7,
        72 => Key::Kp8,
        73 => Key::Kp9,
        82 => Key::Kp0,
        3666 => Key::Function,
        _ => Key::Unknown(code as u32),
    }
}

/// Translates a legacy numeric key code. Total: a code that the table does not
/// list comes back as `Key::Unknown` carrying the code.
#[must_use]
pub fn key_from_code(code: u16) -> (key: Key)
    ensures
        key == legacy_key(code),
        key matches Key::Unknown(raw) ==> raw == code,
{
    match code {
        1 => Key::Escape,
        59 => Key::F1,
        60 => Key::F2,
        61 => Key::F3,
        62 => Key::F4,
        63 => Key::F5,
        64 => Key::F6,
        65 => Key::F7,
        66 => Key::F8,
        67 => Key::F9,
        68 => Key::F10,
        87 => Key::F11,
        88 => Key::F12,
        41 => Key::BackQuote,
        2 => Key::Num1,
        3 => Key::Num2,
        4 => Key::Num3,
        5 => Key::Num4,
        6 => Key::Num5,
        7 => Key::Num6,
        8 => Key::Num7,
        9 => Key::Num8,
        10 => Key::Num9,
        11 => Key::Num0,
        12 => Key::Minus,
        13 | 3597 => Key::Equal,
        14 => Key::Backspace,
        15 => Key::Tab,
        58 => Key::CapsLock,
        30 => Key::KeyA,
        48 => Key::KeyB,
        46 => Key::KeyC,
        32 => Key::KeyD,
        18 => Key::KeyE,
        33 => Key::KeyF,
        34 => Key::KeyG,
        35 => Key::KeyH,
        23 => Key::KeyI,
        36 => Key::KeyJ,
        37 => Key::KeyK,
        38 => Key::KeyL,
        50 => Key::KeyM,
        49 => Key::KeyN,
        24 => Key::KeyO,
        25 => Key::KeyP,
        16 => Key::KeyQ,
        19 => Key::KeyR,
        31 => Key::KeyS,
        20 => Key::KeyT,
        22 => Key::KeyU,
        47 => Key::KeyV,
        17 => Key::KeyW,
        45 => Key::KeyX,
        21 => Key::KeyY,
        44 => Key::KeyZ,
        26 => Key::LeftBracket,
        27 => Key::RightBracket,
        43 => Key::BackSlash,
        39 => Key::SemiColon,
        40 => Key::Quote,
        28 => Key::Return,
        51 => Key::Comma,
        52 | 83 => Key::Dot,
        53 => Key::Slash,
        57 => Key::Space,
        3639 => Key::PrintScreen,
        70 => Key::ScrollLock,
        3653 => Key::Pause,
        3636 | 61010 => Key::Insert,
        3667 | 61011 => Key::Delete,
        3655 | 60999 => Key::Home,
        3663 | 61007 => Key::End,
        3657 | 61001 => Key::PageUp,
        3665 | 61009 => Key::PageDown,
        57416 | 61000 => Key::UpArrow,
        57419 | 61003 => Key::LeftArrow,
        57421 | 61005 => Key::RightArrow,
        57424 | 61008 => Key::DownArrow,
        42 => Key::ShiftLeft,
        54 => Key::ShiftRight,
        29 => Key::ControlLeft,
        3613 => Key::ControlRight,
        56 => Key::Alt,
        3640 => Key::AltGr,
        3675 => Key::MetaLeft,
        3676 => Key::MetaRight,
        69 => Key::NumLock,
        3637 => Key::KpDivide,
        55 => Key::KpMultiply,
        74 => Key::KpMinus,
        78 => Key::KpPlus,
        3612 => Key::KpReturn,
        79 => Key::Kp1,
        80 => Key::Kp2,
        81 => Key::Kp3,
        75 => Key::Kp4,
        76 => Key::Kp5,
        77 => Key::Kp6,
        71 => Key::Kp7,
        72 => Key::Kp8,
        73 => Key::Kp9,
        82 => Key::Kp0,
        3666 => Key::Function,
        _ => Key::Unknown(code as u32),
    }
}

/// The key that a numeric code of any size stands for. The table lists only
/// codes of sixteen bits: a larger one is unlisted, and keeps its value.
pub open spec fn wide_key(code: u32) -> Key {
    if code <= u16::MAX {
        legacy_key(code as u16)
    } else {
        Key::Unknown(code)
    }
}

/// Translates a numeric code that may be too large for the table.
#[must_use]
pub fn key_from_wide_code(code: u32) -> (key: Key)
    ensures
        key == wide_key(code),
        key matches Key::Unknown(raw) ==> raw == code,
{
    if code <= 0xFFFF {
        key_from_code(code as u16)
    } else {
        Key::Unknown(code)
    }
}

/// The identifier reserved for the fallback entry of a pack.
pub open spec fn fallback_name() -> Seq<char> {
    "Unknown"@
}

/// Only unlisted codes are named by the fallback identifier: every key of the
/// table has an identifier of its own that differs from it.
pub proof fn lemma_fallback_names_unknown_only(key: Key)
    ensures
        key.name() == fallback_name() <==> key is Unknown,
{
    reveal_strlit("Unknown");
    match key {
        Key::Alt => {
            reveal_strlit("Alt");
            assert("Alt"@.len() != "Unknown"@.len());
        },
        Key::AltGr => {
            reveal_strlit("AltGr");
            assert("AltGr"@.len() != "Unknown"@.len());
        },
        Key::Backspace => {
            reveal_strlit("Backspace");
            assert("Backspace"@.len() != "Unknown"@.len());
        },
        Key::CapsLock => {
            reveal_strlit("CapsLock");
            assert("CapsLock"@.len() != "Unknown"@.len());
        },
        Key::ControlLeft => {
            reveal_strlit("ControlLeft");
            assert("ControlLeft"@.len() != "Unknown"@.len());
        },
        Key::ControlRight => {
            reveal_strlit("ControlRight");
            assert("ControlRight"@.len() != "Unknown"@.len());
        },
        Key::Delete => {
            reveal_strlit("Delete");
            assert("Delete"@.len() != "Unknown"@.len());
        },
        Key::DownArrow => {
            reveal_strlit("DownArrow");
            assert("DownArrow"@.len() != "Unknown"@.len());
        },
        Key::End => {
            reveal_strlit("End");
            assert("End"@.len() != "Unknown"@.len());
        },
        Key::Escape => {
            reveal_strlit("Escape");
            assert("Escape"@.len() != "Unknown"@.len());
        },
        Key::F1 => {
            reveal_strlit("F1");
            assert("F1"@.len() != "Unknown"@.len());
        },
        Key::F10 => {
            reveal_strlit("F10");
            assert("F10"@.len() != "Unknown"@.len());
        },
        Key::F11 => {
            reveal_strlit("F11");
            assert("F11"@.len() != "Unknown"@.len());
        },
        Key::F12 => {
            reveal_strlit("F12");
            assert("F12"@.len() != "Unknown"@.len());
        },
        Key::F2 => {
            reveal_strlit("F2");
            assert("F2"@.len() != "Unknown"@.len());
        },
        Key::F3 => {
            reveal_strlit("F3");
            assert("F3"@.len() != "Unknown"@.len());
        },
        Key::F4 => {
            reveal_strlit("F4");
            assert("F4"@.len() != "Unknown"@.len());
        },
        Key::F5 => {
            reveal_strlit("F5");
            assert("F5"@.len() != "Unknown"@.len());
        },
        Key::F6 => {
            reveal_strlit("F6");
            assert("F6"@.len() != "Unknown"@.len());
        },
        Key::F7 => {
            reveal_strlit("F7");
            assert("F7"@.len() != "Unknown"@.len());
        },
        Key::F8 => {
            reveal_strlit("F8");
            assert("F8"@.len() != "Unknown"@.len());
        },
        Key::F9 => {
            reveal_strlit("F9");
            assert("F9"@.len() != "Unknown"@.len());
        },
        Key::Home => {
            reveal_strlit("Home");
            assert("Home"@.len() != "Unknown"@.len());
        },
        Key::LeftArrow => {
            reveal_strlit("LeftArrow");
            assert("LeftArrow"@.len() != "Unknown"@.len());
        },
        Key::MetaLeft => {
            reveal_strlit("MetaLeft");
            assert("MetaLeft"@.len() != "Unknown"@.len());
        },
        Key::MetaRight => {
            reveal_strlit("MetaRight");
            assert("MetaRight"@.len() != "Unknown"@.len());
        },
        Key::PageDown => {
            reveal_strlit("PageDown");
            assert("PageDown"@.len() != "Unknown"@.len());
        },
        Key::PageUp => {
            reveal_strlit("PageUp");
            assert("PageUp"@.len() != "Unknown"@.len());
        },
        Key::Return => {
            reveal_strlit("Return");
            assert("Return"@.len() != "Unknown"@.len());
        },
        Key::RightArrow => {
            reveal_strlit("RightArrow");
            assert("RightArrow"@.len() != "Unknown"@.len());
        },
        Key::ShiftLeft => {
            reveal_strlit("ShiftLeft");
            assert("ShiftLeft"@.len() != "Unknown"@.len());
        },
        Key::ShiftRight => {
            reveal_strlit("ShiftRight");
            assert("ShiftRight"@.len() != "Unknown"@.len());
        },
        Key::Space => {
            reveal_strlit("Space");
            assert("Space"@.len() != "Unknown"@.len());
        },
        Key::Tab => {
            reveal_strlit("Tab");
            assert("Tab"@.len() != "Unknown"@.len());
        },
        Key::UpArrow => {
            reveal_strlit("UpArrow");
            assert("UpArrow"@[1] != "Unknown"@[1]);
        },
        Key::PrintScreen => {
            reveal_strlit("PrintScreen");
            assert("PrintScreen"@.len() != "Unknown"@.len());
        },
        Key::ScrollLock => {
            reveal_strlit("ScrollLock");
            assert("ScrollLock"@.len() != "Unknown"@.len());
        },
        Key::Pause => {
            reveal_strlit("Pause");
            assert("Pause"@.len() != "Unknown"@.len());
        },
        Key::NumLock => {
            reveal_strlit("NumLock");
            assert("NumLock"@[0] != "Unknown"@[0]);
        },
        Key::BackQuote => {
            reveal_strlit("BackQuote");
            assert("BackQuote"@.len() != "Unknown"@.len());
        },
        Key::Num1 => {
            reveal_strlit("Num1");
            assert("Num1"@.len() != "Unknown"@.len());
        },
        Key::Num2 => {
            reveal_strlit("Num2");
            assert("Num2"@.len() != "Unknown"@.len());
        },
        Key::Num3 => {
            reveal_strlit("Num3");
            assert("Num3"@.len() != "Unknown"@.len());
        },
        Key::Num4 => {
            reveal_strlit("Num4");
            assert("Num4"@.len() != "Unknown"@.len());
        },
        Key::Num5 => {
            reveal_strlit("Num5");
            assert("Num5"@.len() != "Unknown"@.len());
        },
        Key::Num6 => {
            reveal_strlit("Num6");
            assert("Num6"@.len() != "Unknown"@.len());
        },
        Key::Num7 => {
            reveal_strlit("Num7");
            assert("Num7"@.len() != "Unknown"@.len());
        },
        Key::Num8 => {
            reveal_strlit("Num8");
            assert("Num8"@.len() != "Unknown"@.len());
        },
        Key::Num9 => {
            reveal_strlit("Num9");
            assert("Num9"@.len() != "Unknown"@.len());
        },
        Key::Num0 => {
            reveal_strlit("Num0");
            assert("Num0"@.len() != "Unknown"@.len());
        },
        Key::Minus => {
            reveal_strlit("Minus");
            assert("Minus"@.len() != "Unknown"@.len());
        },
        Key::Equal => {
            reveal_strlit("Equal");
            assert("Equal"@.len() != "Unknown"@.len());
        },
        Key::KeyQ => {
            reveal_strlit("KeyQ");
            assert("KeyQ"@.len() != "Unknown"@.len());
        },
        Key::KeyW => {
            reveal_strlit("KeyW");
            assert("KeyW"@.len() != "Unknown"@.len());
        },
        Key::KeyE => {
            reveal_strlit("KeyE");
            assert("KeyE"@.len() != "Unknown"@.len());
        },
        Key::KeyR => {
            reveal_strlit("KeyR");
            assert("KeyR"@.len() != "Unknown"@.len());
        },
        Key::KeyT => {
            reveal_strlit("KeyT");
            assert("KeyT"@.len() != "Unknown"@.len());
        },
        Key::KeyY => {
            reveal_strlit("KeyY");
            assert("KeyY"@.len() != "Unknown"@.len());
        },
        Key::KeyU => {
            reveal_strlit("KeyU");
            assert("KeyU"@.len() != "Unknown"@.len());
        },
        Key::KeyI => {
            reveal_strlit("KeyI");
            assert("KeyI"@.len() != "Unknown"@.len());
        },
        Key::KeyO => {
            reveal_strlit("KeyO");
            assert("KeyO"@.len() != "Unknown"@.len());
        },
        Key::KeyP => {
            reveal_strlit("KeyP");
            assert("KeyP"@.len() != "Unknown"@.len());
        },
        Key::LeftBracket => {
            reveal_strlit("LeftBracket");
            assert("LeftBracket"@.len() != "Unknown"@.len());
        },
        Key::RightBracket => {
            reveal_strlit("RightBracket");
            assert("RightBracket"@.len() != "Unknown"@.len());
        },
        Key::KeyA => {
            reveal_strlit("KeyA");
            assert("KeyA"@.len() != "Unknown"@.len());
        },
        Key::KeyS => {
            reveal_strlit("KeyS");
            assert("KeyS"@.len() != "Unknown"@.len());
        },
        Key::KeyD => {
            reveal_strlit("KeyD");
            assert("KeyD"@.len() != "Unknown"@.len());
        },
        Key::KeyF => {
            reveal_strlit("KeyF");
            assert("KeyF"@.len() != "Unknown"@.len());
        },
        Key::KeyG => {
            reveal_strlit("KeyG");
            assert("KeyG"@.len() != "Unknown"@.len());
        },
        Key::KeyH => {
            reveal_strlit("KeyH");
            assert("KeyH"@.len() != "Unknown"@.len());
        },
        Key::KeyJ => {
            reveal_strlit("KeyJ");
            assert("KeyJ"@.len() != "Unknown"@.len());
        },
        Key::KeyK => {
            reveal_strlit("KeyK");
            assert("KeyK"@.len() != "Unknown"@.len());
        },
        Key::KeyL => {
            reveal_strlit("KeyL");
            assert("KeyL"@.len() != "Unknown"@.len());
        },
        Key::SemiColon => {
            reveal_strlit("SemiColon");
            assert("SemiColon"@.len() != "Unknown"@.len());
        },
        Key::Quote => {
            reveal_strlit("Quote");
            assert("Quote"@.len() != "Unknown"@.len());
        },
        Key::BackSlash => {
            reveal_strlit("BackSlash");
            assert("BackSlash"@.len() != "Unknown"@.len());
        },
        Key::IntlBackslash => {
            reveal_strlit("IntlBackslash");
            assert("IntlBackslash"@.len() != "Unknown"@.len());
        },
        Key::KeyZ => {
            reveal_strlit("KeyZ");
            assert("KeyZ"@.len() != "Unknown"@.len());
        },
        Key::KeyX => {
            reveal_strlit("KeyX");
            assert("KeyX"@.len() != "Unknown"@.len());
        },
        Key::KeyC => {
            reveal_strlit("KeyC");
            assert("KeyC"@.len() != "Unknown"@.len());
        },
        Key::KeyV => {
            reveal_strlit("KeyV");
            assert("KeyV"@.len() != "Unknown"@.len());
        },
        Key::KeyB => {
            reveal_strlit("KeyB");
            assert("KeyB"@.len() != "Unknown"@.len());
        },
        Key::KeyN => {
            reveal_strlit("KeyN");
            assert("KeyN"@.len() != "Unknown"@.len());
        },
        Key::KeyM => {
            reveal_strlit("KeyM");
            assert("KeyM"@.len() != "Unknown"@.len());
        },
        Key::Comma => {
            reveal_strlit("Comma");
            assert("Comma"@.len() != "Unknown"@.len());
        },
        Key::Dot => {
            reveal_strlit("Dot");
            assert("Dot"@.len() != "Unknown"@.len());
        },
        Key::Slash => {
            reveal_strlit("Slash");
            assert("Slash"@.len() != "Unknown"@.len());
        },
        Key::Insert => {
            reveal_strlit("Insert");
            assert("Insert"@.len() != "Unknown"@.len());
        },
        Key::KpReturn => {
            reveal_strlit("KpReturn");
            assert("KpReturn"@.len() != "Unknown"@.len());
        },
        Key::KpMinus => {
            reveal_strlit("KpMinus");
            assert("KpMinus"@[0] != "Unknown"@[0]);
        },
        Key::KpPlus => {
            reveal_strlit("KpPlus");
            assert("KpPlus"@.len() != "Unknown"@.len());
        },
        Key::KpMultiply => {
            reveal_strlit("KpMultiply");
            assert("KpMultiply"@.len() != "Unknown"@.len());
        },
        Key::KpDivide => {
            reveal_strlit("KpDivide");
            assert("KpDivide"@.len() != "Unknown"@.len());
        },
        Key::Kp0 => {
            reveal_strlit("Kp0");
            assert("Kp0"@.len() != "Unknown"@.len());
        },
        Key::Kp1 => {
            reveal_strlit("Kp1");
            assert("Kp1"@.len() != "Unknown"@.len());
        },
        Key::Kp2 => {
            reveal_strlit("Kp2");
            assert("Kp2"@.len() != "Unknown"@.len());
        },
        Key::Kp3 => {
            reveal_strlit("Kp3");
            assert("Kp3"@.len() != "Unknown"@.len());
        },
        Key::Kp4 => {
            reveal_strlit("Kp4");
            assert("Kp4"@.len() != "Unknown"@.len());
        },
        Key::Kp5 => {
            reveal_strlit("Kp5");
            assert("Kp5"@.len() != "Unknown"@.len());
        },
        Key::Kp6 => {
            reveal_strlit("Kp6");
            assert("Kp6"@.len() != "Unknown"@.len());
        },
        Key::Kp7 => {
            reveal_strlit("Kp7");
            assert("Kp7"@.len() != "Unknown"@.len());
        },
        Key::Kp8 => {
            reveal_strlit("Kp8");
            assert("Kp8"@.len() != "Unknown"@.len());
        },
        Key::Kp9 => {
            reveal_strlit("Kp9");
            assert("Kp9"@.len() != "Unknown"@.len());
        },
        Key::KpDelete => {
            reveal_strlit("KpDelete");
            assert("KpDelete"@.len() != "Unknown"@.len());
        },
        Key::Function => {
            reveal_strlit("Function");
            assert("Function"@.len() != "Unknown"@.len());
        },
        Key::Unknown(_) => {},
    }
}

/// A code translates to the fallback identifier exactly when the table does
/// not list it.
pub proof fn lemma_unlisted_code_is_fallback(code: u16)
    ensures
        legacy_key(code).name() == fallback_name() <==> legacy_key(code) == Key::Unknown(
            code as u32,
        ),
{
    lemma_fallback_names_unknown_only(legacy_key(code));
}

} // verus!
