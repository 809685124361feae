//! The two key lookup tables: a dense map from raw scan code to physical
//! key code, and a tiered map from raw protocol key symbol to logical key
//! symbol (printable Latin-1 fast path, contiguous function-key fast path,
//! then a sparse table of protocol- and vendor-specific values).

use vstd::prelude::*;
use crate::key::{Code, Sym};

verus! {

/// First raw value of the printable Latin-1 range.
pub const KEYSYM_LATIN1_FIRST: u32 = 0x20;

/// First raw value past the printable Latin-1 range.
pub const KEYSYM_LATIN1_END: u32 = 0x80;

/// Raw protocol value of the F1 key symbol.
pub const KEYSYM_F1: u32 = 0xffbe;

/// Raw protocol value of the F24 key symbol.
pub const KEYSYM_F24: u32 = 0xffd5;

/// The physical-layout convention: which `Code` each raw scan code denotes.
/// A static, versioned artifact; changing an entry is a compatibility change.
pub open spec fn spec_keycode(raw: u8) -> Code {
    if raw == 9 {
        Code::Escape
    } else if raw == 10 {
        Code::N1
    } else if raw == 11 {
        Code::N2
    } else if raw == 12 {
        Code::N3
    } else if raw == 13 {
        Code::N4
    } else if raw == 14 {
        Code::N5
    } else if raw == 15 {
        Code::N6
    } else if raw == 16 {
        Code::N7
    } else if raw == 17 {
        Code::N8
    } else if raw == 18 {
        Code::N9
    } else if raw == 19 {
        Code::N0
    } else if raw == 20 {
        Code::Minus
    } else if raw == 21 {
        Code::Equals
    } else if raw == 22 {
        Code::Backspace
    } else if raw == 23 {
        Code::Tab
    } else if raw == 24 {
        Code::Q
    } else if raw == 25 {
        Code::W
    } else if raw == 26 {
        Code::E
    } else if raw == 27 {
        Code::R
    } else if raw == 28 {
        Code::T
    } else if raw == 29 {
        Code::Y
    } else if raw == 30 {
        Code::U
    } else if raw == 31 {
        Code::I
    } else if raw == 32 {
        Code::O
    } else if raw == 33 {
        Code::P
    } else if raw == 34 {
        Code::LeftBracket
    } else if raw == 35 {
        Code::RightBracket
    } else if raw == 36 {
        Code::Enter
    } else if raw == 37 {
        Code::LeftCtrl
    } else if raw == 38 {
        Code::A
    } else if raw == 39 {
        Code::S
    } else if raw == 40 {
        Code::D
    } else if raw == 41 {
        Code::F
    } else if raw == 42 {
        Code::G
    } else if raw == 43 {
        Code::H
    } else if raw == 44 {
        Code::J
    } else if raw == 45 {
        Code::K
    } else if raw == 46 {
        Code::L
    } else if raw == 47 {
        Code::Semicolon
    } else if raw == 48 {
        Code::Quote
    } else if raw == 49 {
        Code::Grave
    } else if raw == 50 {
        Code::LeftShift
    } else if raw == 51 {
        Code::UK_Hash
    } else if raw == 52 {
        Code::Z
    } else if raw == 53 {
        Code::X
    } else if raw == 54 {
        Code::C
    } else if raw == 55 {
        Code::V
    } else if raw == 56 {
        Code::B
    } else if raw == 57 {
        Code::N
    } else if raw == 58 {
        Code::M
    } else if raw == 59 {
        Code::Comma
    } else if raw == 60 {
        Code::Period
    } else if raw == 61 {
        Code::Slash
    } else if raw == 62 {
        Code::RightShift
    } else if raw == 63 {
        Code::KP_Multiply
    } else if raw == 64 {
        Code::LeftAlt
    } else if raw == 65 {
        Code::Space
    } else if raw == 66 {
        Code::CapsLock
    } else if raw == 67 {
        Code::F1
    } else if raw == 68 {
        Code::F2
    } else if raw == 69 {
        Code::F3
    } else if raw == 70 {
        Code::F4
    } else if raw == 71 {
        Code::F5
    } else if raw == 72 {
        Code::F6
    } else if raw == 73 {
        Code::F7
    } else if raw == 74 {
        Code::F8
    } else if raw == 75 {
        Code::F9
    } else if raw == 76 {
        Code::F10
    } else if raw == 77 {
        Code::KP_NumLock
    } else if raw == 78 {
        Code::ScrollLock
    } else if raw == 79 {
        Code::KP_7
    } else if raw == 80 {
        Code::KP_8
    } else if raw == 81 {
        Code::KP_9
    } else if raw == 82 {
        Code::KP_Subtract
    } else if raw == 83 {
        Code::KP_4
    } else if raw == 84 {
        Code::KP_5
    } else if raw == 85 {
        Code::KP_6
    } else if raw == 86 {
        Code::KP_Add
    } else if raw == 87 {
        Code::KP_1
    } else if raw == 88 {
        Code::KP_2
    } else if raw == 89 {
        Code::KP_3
    } else if raw == 90 {
        Code::KP_0
    } else if raw == 91 {
        Code::KP_Period
    } else if raw == 94 {
        Code::UK_Backslash
    } else if raw == 95 {
        Code::F11
    } else if raw == 96 {
        Code::F12
    } else if raw == 98 {
        Code::LANG3
    } else if raw == 99 {
        Code::LANG4
    } else if raw == 104 {
        Code::KP_Enter
    } else if raw == 105 {
        Code::RightCtrl
    } else if raw == 106 {
        Code::KP_Divide
    } else if raw == 107 {
        Code::PrintScreen
    } else if raw == 108 {
        Code::RightAlt
    } else if raw == 110 {
        Code::Home
    } else if raw == 111 {
        Code::Up
    } else if raw == 112 {
        Code::PageUp
    } else if raw == 113 {
        Code::Left
    } else if raw == 114 {
        Code::Right
    } else if raw == 115 {
        Code::End
    } else if raw == 116 {
        Code::Down
    } else if raw == 117 {
        Code::PageDown
    } else if raw == 118 {
        Code::Insert
    } else if raw == 119 {
        Code::Delete
    } else if raw == 121 {
        Code::Mute
    } else if raw == 122 {
        Code::VolumeDown
    } else if raw == 123 {
        Code::VolumeUp
    } else if raw == 125 {
        Code::KP_Equal
    } else if raw == 126 {
        Code::KP_PlusMinus
    } else if raw == 127 {
        Code::Pause
    } else if raw == 129 {
        Code::KP_Decimal
    } else if raw == 130 {
        Code::LANG1
    } else if raw == 131 {
        Code::LANG2
    } else if raw == 135 {
        Code::Menu
    } else if raw == 136 {
        Code::Cancel
    } else if raw == 137 {
        Code::Again
    } else if raw == 139 {
        Code::Undo
    } else if raw == 141 {
        Code::Copy
    } else if raw == 143 {
        Code::Paste
    } else if raw == 144 {
        Code::Find
    } else if raw == 145 {
        Code::Cut
    } else if raw == 146 {
        Code::Help
    } else {
        Code::Unknown
    }
}

/// Scan code to physical key code: total over all 256 raw codes;
/// positions with no defined mapping resolve to `Unknown`.
pub fn keycode_from_raw(raw: u8) -> (c: Code)
    ensures
        c == spec_keycode(raw),
{
    match raw {
        9 => Code::Escape,
        10 => Code::N1,
        11 => Code::N2,
        12 => Code::N3,
        13 => Code::N4,
        14 => Code::N5,
        15 => Code::N6,
        16 => Code::N7,
        17 => Code::N8,
        18 => Code::N9,
        19 => Code::N0,
        20 => Code::Minus,
        21 => Code::Equals,
        22 => Code::Backspace,
        23 => Code::Tab,
        24 => Code::Q,
        25 => Code::W,
        26 => Code::E,
        27 => Code::R,
        28 => Code::T,
        29 => Code::Y,
        30 => Code::U,
        31 => Code::I,
        32 => Code::O,
        33 => Code::P,
        34 => Code::LeftBracket,
        35 => Code::RightBracket,
        36 => Code::Enter,
        37 => Code::LeftCtrl,
        38 => Code::A,
        39 => Code::S,
        40 => Code::D,
        41 => Code::F,
        42 => Code::G,
        43 => Code::H,
        44 => Code::J,
        45 => Code::K,
        46 => Code::L,
        47 => Code::Semicolon,
        48 => Code::Quote,
        49 => Code::Grave,
        50 => Code::LeftShift,
        51 => Code::UK_Hash,
        52 => Code::Z,
        53 => Code::X,
        54 => Code::C,
        55 => Code::V,
        56 => Code::B,
        57 => Code::N,
        58 => Code::M,
        59 => Code::Comma,
        60 => Code::Period,
        61 => Code::Slash,
        62 => Code::RightShift,
        63 => Code::KP_Multiply,
        64 => Code::LeftAlt,
        65 => Code::Space,
        66 => Code::CapsLock,
        67 => Code::F1,
        68 => Code::F2,
        69 => Code::F3,
        70 => Code::F4,
        71 => Code::F5,
        72 => Code::F6,
        73 => Code::F7,
        74 => Code::F8,
        75 => Code::F9,
        76 => Code::F10,
        77 => Code::KP_NumLock,
        78 => Code::ScrollLock,
        79 => Code::KP_7,
        80 => Code::KP_8,
        81 => Code::KP_9,
        82 => Code::KP_Subtract,
        83 => Code::KP_4,
        84 => Code::KP_5,
        85 => Code::KP_6,
        86 => Code::KP_Add,
        87 => Code::KP_1,
        88 => Code::KP_2,
        89 => Code::KP_3,
        90 => Code::KP_0,
        91 => Code::KP_Period,
        94 => Code::UK_Backslash,
        95 => Code::F11,
        96 => Code::F12,
        98 => Code::LANG3,
        99 => Code::LANG4,
        104 => Code::KP_Enter,
        105 => Code::RightCtrl,
        106 => Code::KP_Divide,
        107 => Code::PrintScreen,
        108 => Code::RightAlt,
        110 => Code::Home,
        111 => Code::Up,
        112 => Code::PageUp,
        113 => Code::Left,
        114 => Code::Right,
        115 => Code::End,
        116 => Code::Down,
        117 => Code::PageDown,
        118 => Code::Insert,
        119 => Code::Delete,
        121 => Code::Mute,
        122 => Code::VolumeDown,
        123 => Code::VolumeUp,
        125 => Code::KP_Equal,
        126 => Code::KP_PlusMinus,
        127 => Code::Pause,
        129 => Code::KP_Decimal,
        130 => Code::LANG1,
        131 => Code::LANG2,
        135 => Code::Menu,
        136 => Code::Cancel,
        137 => Code::Again,
        139 => Code::Undo,
        141 => Code::Copy,
        143 => Code::Paste,
        144 => Code::Find,
        145 => Code::Cut,
        146 => Code::Help,
        _ => Code::Unknown,
    }
}


/// The printable Latin-1 fast path: raw values 0x20..0x7f reinterpreted
/// directly, lowercase letters already folded to their uppercase symbol.
pub open spec fn spec_latin1_sym(raw: u32) -> Sym {
    if raw == 0x20 {
        Sym::space
    } else if raw == 0x21 {
        Sym::exclam
    } else if raw == 0x22 {
        Sym::quotedbl
    } else if raw == 0x23 {
        Sym::numbersign
    } else if raw == 0x24 {
        Sym::dollar
    } else if raw == 0x25 {
        Sym::percent
    } else if raw == 0x26 {
        Sym::ampersand
    } else if raw == 0x27 {
        Sym::apostrophe
    } else if raw == 0x28 {
        Sym::parenleft
    } else if raw == 0x29 {
        Sym::parenright
    } else if raw == 0x2a {
        Sym::asterisk
    } else if raw == 0x2b {
        Sym::plus
    } else if raw == 0x2c {
        Sym::comma
    } else if raw == 0x2d {
        Sym::minus
    } else if raw == 0x2e {
        Sym::period
    } else if raw == 0x2f {
        Sym::slash
    } else if raw == 0x30 {
        Sym::D0
    } else if raw == 0x31 {
        Sym::D1
    } else if raw == 0x32 {
        Sym::D2
    } else if raw == 0x33 {
        Sym::D3
    } else if raw == 0x34 {
        Sym::D4
    } else if raw == 0x35 {
        Sym::D5
    } else if raw == 0x36 {
        Sym::D6
    } else if raw == 0x37 {
        Sym::D7
    } else if raw == 0x38 {
        Sym::D8
    } else if raw == 0x39 {
        Sym::D9
    } else if raw == 0x3a {
        Sym::colon
    } else if raw == 0x3b {
        Sym::semicolon
    } else if raw == 0x3c {
        Sym::less
    } else if raw == 0x3d {
        Sym::equal
    } else if raw == 0x3e {
        Sym::greater
    } else if raw == 0x3f {
        Sym::question
    } else if raw == 0x40 {
        Sym::at
    } else if raw == 0x41 {
        Sym::A
    } else if raw == 0x42 {
        Sym::B
    } else if raw == 0x43 {
        Sym::C
    } else if raw == 0x44 {
        Sym::D
    } else if raw == 0x45 {
        Sym::E
    } else if raw == 0x46 {
        Sym::F
    } else if raw == 0x47 {
        Sym::G
    } else if raw == 0x48 {
        Sym::H
    } else if raw == 0x49 {
        Sym::I
    } else if raw == 0x4a {
        Sym::J
    } else if raw == 0x4b {
        Sym::K
    } else if raw == 0x4c {
        Sym::L
    } else if raw == 0x4d {
        Sym::M
    } else if raw == 0x4e {
        Sym::N
    } else if raw == 0x4f {
        Sym::O
    } else if raw == 0x50 {
        Sym::P
    } else if raw == 0x51 {
        Sym::Q
    } else if raw == 0x52 {
        Sym::R
    } else if raw == 0x53 {
        Sym::S
    } else if raw == 0x54 {
        Sym::T
    } else if raw == 0x55 {
        Sym::U
    } else if raw == 0x56 {
        Sym::V
    } else if raw == 0x57 {
        Sym::W
    } else if raw == 0x58 {
        Sym::X
    } else if raw == 0x59 {
        Sym::Y
    } else if raw == 0x5a {
        Sym::Z
    } else if raw == 0x5b {
        Sym::bracketleft
    } else if raw == 0x5c {
        Sym::backslash
    } else if raw == 0x5d {
        Sym::bracketright
    } else if raw == 0x5e {
        Sym::asciicircum
    } else if raw == 0x5f {
        Sym::underscore
    } else if raw == 0x60 {
        Sym::grave
    } else if raw == 0x7b {
        Sym::braceleft
    } else if raw == 0x7c {
        Sym::bar
    } else if raw == 0x7d {
        Sym::braceright
    } else if raw == 0x7e {
        Sym::asciitilde
    } else {
        Sym::Unknown
    }
}

fn latin1_sym(raw: u32) -> (s: Sym)
    ensures
        s == spec_latin1_sym(raw),
{
    match raw {
        0x20 => Sym::space,
        0x21 => Sym::exclam,
        0x22 => Sym::quotedbl,
        0x23 => Sym::numbersign,
        0x24 => Sym::dollar,
        0x25 => Sym::percent,
        0x26 => Sym::ampersand,
        0x27 => Sym::apostrophe,
        0x28 => Sym::parenleft,
        0x29 => Sym::parenright,
        0x2a => Sym::asterisk,
        0x2b => Sym::plus,
        0x2c => Sym::comma,
        0x2d => Sym::minus,
        0x2e => Sym::period,
        0x2f => Sym::slash,
        0x30 => Sym::D0,
        0x31 => Sym::D1,
        0x32 => Sym::D2,
        0x33 => Sym::D3,
        0x34 => Sym::D4,
        0x35 => Sym::D5,
        0x36 => Sym::D6,
        0x37 => Sym::D7,
        0x38 => Sym::D8,
        0x39 => Sym::D9,
        0x3a => Sym::colon,
        0x3b => Sym::semicolon,
        0x3c => Sym::less,
        0x3d => Sym::equal,
        0x3e => Sym::greater,
        0x3f => Sym::question,
        0x40 => Sym::at,
        0x41 => Sym::A,
        0x42 => Sym::B,
        0x43 => Sym::C,
        0x44 => Sym::D,
        0x45 => Sym::E,
        0x46 => Sym::F,
        0x47 => Sym::G,
        0x48 => Sym::H,
        0x49 => Sym::I,
        0x4a => Sym::J,
        0x4b => Sym::K,
        0x4c => Sym::L,
        0x4d => Sym::M,
        0x4e => Sym::N,
        0x4f => Sym::O,
        0x50 => Sym::P,
        0x51 => Sym::Q,
        0x52 => Sym::R,
        0x53 => Sym::S,
        0x54 => Sym::T,
        0x55 => Sym::U,
        0x56 => Sym::V,
        0x57 => Sym::W,
        0x58 => Sym::X,
        0x59 => Sym::Y,
        0x5a => Sym::Z,
        0x5b => Sym::bracketleft,
        0x5c => Sym::backslash,
        0x5d => Sym::bracketright,
        0x5e => Sym::asciicircum,
        0x5f => Sym::underscore,
        0x60 => Sym::grave,
        0x7b => Sym::braceleft,
        0x7c => Sym::bar,
        0x7d => Sym::braceright,
        0x7e => Sym::asciitilde,
        _ => Sym::Unknown,
    }
}

/// The function-key symbols in order, F1 first.
pub open spec fn spec_fkey_seq() -> Seq<Sym> {
    seq![
        Sym::F1,
        Sym::F2,
        Sym::F3,
        Sym::F4,
        Sym::F5,
        Sym::F6,
        Sym::F7,
        Sym::F8,
        Sym::F9,
        Sym::F10,
        Sym::F11,
        Sym::F12,
        Sym::F13,
        Sym::F14,
        Sym::F15,
        Sym::F16,
        Sym::F17,
        Sym::F18,
        Sym::F19,
        Sym::F20,
        Sym::F21,
        Sym::F22,
        Sym::F23,
        Sym::F24,
    ]
}

fn fkey_sym(index: u32) -> (s: Sym)
    requires
        index < 24,
    ensures
        s == spec_fkey_seq()[index as int],
{
    match index {
        0 => Sym::F1,
        1 => Sym::F2,
        2 => Sym::F3,
        3 => Sym::F4,
        4 => Sym::F5,
        5 => Sym::F6,
        6 => Sym::F7,
        7 => Sym::F8,
        8 => Sym::F9,
        9 => Sym::F10,
        10 => Sym::F11,
        11 => Sym::F12,
        12 => Sym::F13,
        13 => Sym::F14,
        14 => Sym::F15,
        15 => Sym::F16,
        16 => Sym::F17,
        17 => Sym::F18,
        18 => Sym::F19,
        19 => Sym::F20,
        20 => Sym::F21,
        21 => Sym::F22,
        22 => Sym::F23,
        23 => Sym::F24,
        _ => Sym::Unknown,
    }
}

/// The sparse tier: protocol-specific and vendor-specific raw symbol
/// values with a named meaning; every other value resolves to `Unknown`.
pub open spec fn spec_table_sym(raw: u32) -> Sym {
    if raw == 0x0000fe03 {
        Sym::RightAlt
    } else if raw == 0x0000fe20 {
        Sym::LeftTab
    } else if raw == 0x0000ff08 {
        Sym::Backspace
    } else if raw == 0x0000ff09 {
        Sym::Tab
    } else if raw == 0x0000ff0b {
        Sym::Delete
    } else if raw == 0x0000ff0d {
        Sym::Return
    } else if raw == 0x0000ff13 {
        Sym::Pause
    } else if raw == 0x0000ff14 {
        Sym::ScrollLock
    } else if raw == 0x0000ff1b {
        Sym::Escape
    } else if raw == 0x0000ff50 {
        Sym::Home
    } else if raw == 0x0000ff51 {
        Sym::Left
    } else if raw == 0x0000ff52 {
        Sym::Up
    } else if raw == 0x0000ff53 {
        Sym::Right
    } else if raw == 0x0000ff54 {
        Sym::Down
    } else if raw == 0x0000ff55 {
        Sym::PageUp
    } else if raw == 0x0000ff56 {
        Sym::PageDown
    } else if raw == 0x0000ff57 {
        Sym::End
    } else if raw == 0x0000ff61 {
        Sym::Print
    } else if raw == 0x0000ff63 {
        Sym::Insert
    } else if raw == 0x0000ff67 {
        Sym::Menu
    } else if raw == 0x0000ff6a {
        Sym::Help
    } else if raw == 0x0000ff7e {
        Sym::ModeSwitch
    } else if raw == 0x0000ff7f {
        Sym::NumLock
    } else if raw == 0x0000ff8d {
        Sym::KP_Enter
    } else if raw == 0x0000ff95 {
        Sym::KP_Home
    } else if raw == 0x0000ff96 {
        Sym::KP_Left
    } else if raw == 0x0000ff97 {
        Sym::KP_Up
    } else if raw == 0x0000ff98 {
        Sym::KP_Right
    } else if raw == 0x0000ff99 {
        Sym::KP_Down
    } else if raw == 0x0000ff9a {
        Sym::KP_PageUp
    } else if raw == 0x0000ff9b {
        Sym::KP_PageDown
    } else if raw == 0x0000ff9c {
        Sym::KP_End
    } else if raw == 0x0000ff9d {
        Sym::KP_Begin
    } else if raw == 0x0000ff9f {
        Sym::KP_Delete
    } else if raw == 0x0000ffaa {
        Sym::KP_Multiply
    } else if raw == 0x0000ffab {
        Sym::KP_Add
    } else if raw == 0x0000ffac {
        Sym::KP_Separator
    } else if raw == 0x0000ffad {
        Sym::KP_Subtract
    } else if raw == 0x0000ffae {
        Sym::KP_Decimal
    } else if raw == 0x0000ffaf {
        Sym::KP_Divide
    } else if raw == 0x0000ffb0 {
        Sym::KP_0
    } else if raw == 0x0000ffb1 {
        Sym::KP_1
    } else if raw == 0x0000ffb2 {
        Sym::KP_2
    } else if raw == 0x0000ffb3 {
        Sym::KP_3
    } else if raw == 0x0000ffb4 {
        Sym::KP_4
    } else if raw == 0x0000ffb6 {
        Sym::KP_6
    } else if raw == 0x0000ffb7 {
        Sym::KP_7
    } else if raw == 0x0000ffb8 {
        Sym::KP_8
    } else if raw == 0x0000ffb9 {
        Sym::KP_9
    } else if raw == 0x0000ffbd {
        Sym::KP_Equal
    } else if raw == 0x0000ffe1 {
        Sym::LeftShift
    } else if raw == 0x0000ffe2 {
        Sym::RightShift
    } else if raw == 0x0000ffe3 {
        Sym::LeftCtrl
    } else if raw == 0x0000ffe4 {
        Sym::RightCtrl
    } else if raw == 0x0000ffe5 {
        Sym::CapsLock
    } else if raw == 0x0000ffe6 {
        Sym::Shift
    } else if raw == 0x0000ffe7 {
        Sym::LeftMeta
    } else if raw == 0x0000ffe8 {
        Sym::RightMeta
    } else if raw == 0x0000ffe9 {
        Sym::LeftAlt
    } else if raw == 0x0000ffea {
        Sym::RightAlt
    } else if raw == 0x0000ffeb {
        Sym::LeftSuper
    } else if raw == 0x0000ffec {
        Sym::RightSuper
    } else if raw == 0x0000ffff {
        Sym::Delete
    } else if raw == 0x1000ff74 {
        Sym::LeftTab
    } else if raw == 0x1005ff10 {
        Sym::F11
    } else if raw == 0x1005ff11 {
        Sym::F12
    } else if raw == 0x1005ff60 {
        Sym::SysRq
    } else if raw == 0x1007ff00 {
        Sym::SysRq
    } else if raw == 0x1008fe21 {
        Sym::ClearGrab
    } else if raw == 0x1008ff02 {
        Sym::MonBrightnessUp
    } else if raw == 0x1008ff03 {
        Sym::MonBrightnessDown
    } else if raw == 0x1008ff04 {
        Sym::KeyboardLightOnOff
    } else if raw == 0x1008ff05 {
        Sym::KeyboardBrightnessUp
    } else if raw == 0x1008ff06 {
        Sym::KeyboardBrightnessDown
    } else if raw == 0x1008ff10 {
        Sym::Standby
    } else if raw == 0x1008ff11 {
        Sym::VolumeDown
    } else if raw == 0x1008ff12 {
        Sym::VolumeMute
    } else if raw == 0x1008ff13 {
        Sym::VolumeUp
    } else if raw == 0x1008ff14 {
        Sym::MediaPlay
    } else if raw == 0x1008ff15 {
        Sym::MediaStop
    } else if raw == 0x1008ff16 {
        Sym::MediaPrevious
    } else if raw == 0x1008ff17 {
        Sym::MediaNext
    } else if raw == 0x1008ff18 {
        Sym::HomePage
    } else if raw == 0x1008ff19 {
        Sym::LaunchMail
    } else if raw == 0x1008ff1b {
        Sym::Search
    } else if raw == 0x1008ff1c {
        Sym::MediaRecord
    } else if raw == 0x1008ff1d {
        Sym::Calculator
    } else if raw == 0x1008ff1e {
        Sym::Memo
    } else if raw == 0x1008ff1f {
        Sym::ToDoList
    } else if raw == 0x1008ff20 {
        Sym::Calendar
    } else if raw == 0x1008ff21 {
        Sym::PowerDown
    } else if raw == 0x1008ff22 {
        Sym::ContrastAdjust
    } else if raw == 0x1008ff26 {
        Sym::Back
    } else if raw == 0x1008ff27 {
        Sym::Forward
    } else if raw == 0x1008ff28 {
        Sym::Stop
    } else if raw == 0x1008ff29 {
        Sym::Refresh
    } else if raw == 0x1008ff2a {
        Sym::PowerOff
    } else if raw == 0x1008ff2b {
        Sym::WakeUp
    } else if raw == 0x1008ff2c {
        Sym::Eject
    } else if raw == 0x1008ff2d {
        Sym::ScreenSaver
    } else if raw == 0x1008ff2e {
        Sym::WWW
    } else if raw == 0x1008ff2f {
        Sym::Sleep
    } else if raw == 0x1008ff30 {
        Sym::Favorites
    } else if raw == 0x1008ff31 {
        Sym::MediaPause
    } else if raw == 0x1008ff32 {
        Sym::LaunchMedia
    } else if raw == 0x1008ff33 {
        Sym::MyComputer
    } else if raw == 0x1008ff35 {
        Sym::LightBulb
    } else if raw == 0x1008ff36 {
        Sym::Shop
    } else if raw == 0x1008ff37 {
        Sym::History
    } else if raw == 0x1008ff38 {
        Sym::OpenUrl
    } else if raw == 0x1008ff39 {
        Sym::AddFavorite
    } else if raw == 0x1008ff3a {
        Sym::HotLinks
    } else if raw == 0x1008ff3b {
        Sym::BrightnessAdjust
    } else if raw == 0x1008ff3c {
        Sym::Finance
    } else if raw == 0x1008ff3d {
        Sym::Community
    } else if raw == 0x1008ff3e {
        Sym::AudioRewind
    } else if raw == 0x1008ff3f {
        Sym::BackForward
    } else if raw == 0x1008ff40 {
        Sym::Launch0
    } else if raw == 0x1008ff41 {
        Sym::Launch1
    } else if raw == 0x1008ff42 {
        Sym::Launch2
    } else if raw == 0x1008ff43 {
        Sym::Launch3
    } else if raw == 0x1008ff44 {
        Sym::Launch4
    } else if raw == 0x1008ff45 {
        Sym::Launch5
    } else if raw == 0x1008ff46 {
        Sym::Launch6
    } else if raw == 0x1008ff47 {
        Sym::Launch7
    } else if raw == 0x1008ff48 {
        Sym::Launch8
    } else if raw == 0x1008ff49 {
        Sym::Launch9
    } else if raw == 0x1008ff4a {
        Sym::LaunchA
    } else if raw == 0x1008ff4b {
        Sym::LaunchB
    } else if raw == 0x1008ff4c {
        Sym::LaunchC
    } else if raw == 0x1008ff4d {
        Sym::LaunchD
    } else if raw == 0x1008ff4e {
        Sym::LaunchE
    } else if raw == 0x1008ff4f {
        Sym::LaunchF
    } else if raw == 0x1008ff50 {
        Sym::ApplicationLeft
    } else if raw == 0x1008ff51 {
        Sym::ApplicationRight
    } else if raw == 0x1008ff52 {
        Sym::Book
    } else if raw == 0x1008ff53 {
        Sym::CD
    } else if raw == 0x1008ff54 {
        Sym::Calculator
    } else if raw == 0x1008ff55 {
        Sym::Clear
    } else if raw == 0x1008ff56 {
        Sym::Close
    } else if raw == 0x1008ff57 {
        Sym::Copy
    } else if raw == 0x1008ff58 {
        Sym::Cut
    } else if raw == 0x1008ff59 {
        Sym::Display
    } else if raw == 0x1008ff5a {
        Sym::DOS
    } else if raw == 0x1008ff5b {
        Sym::Documents
    } else if raw == 0x1008ff5c {
        Sym::Excel
    } else if raw == 0x1008ff5d {
        Sym::Explorer
    } else if raw == 0x1008ff5e {
        Sym::Game
    } else if raw == 0x1008ff5f {
        Sym::Go
    } else if raw == 0x1008ff60 {
        Sym::iTouch
    } else if raw == 0x1008ff61 {
        Sym::LogOff
    } else if raw == 0x1008ff62 {
        Sym::Market
    } else if raw == 0x1008ff63 {
        Sym::Meeting
    } else if raw == 0x1008ff65 {
        Sym::MenuKB
    } else if raw == 0x1008ff66 {
        Sym::MenuPB
    } else if raw == 0x1008ff67 {
        Sym::MySites
    } else if raw == 0x1008ff68 {
        Sym::New
    } else if raw == 0x1008ff69 {
        Sym::News
    } else if raw == 0x1008ff6a {
        Sym::OfficeHome
    } else if raw == 0x1008ff6b {
        Sym::Open
    } else if raw == 0x1008ff6c {
        Sym::OptionKey
    } else if raw == 0x1008ff6d {
        Sym::Paste
    } else if raw == 0x1008ff6e {
        Sym::Phone
    } else if raw == 0x1008ff72 {
        Sym::Reply
    } else if raw == 0x1008ff73 {
        Sym::Reload
    } else if raw == 0x1008ff74 {
        Sym::RotateWindows
    } else if raw == 0x1008ff75 {
        Sym::RotationPB
    } else if raw == 0x1008ff76 {
        Sym::RotationKB
    } else if raw == 0x1008ff77 {
        Sym::Save
    } else if raw == 0x1008ff7b {
        Sym::Send
    } else if raw == 0x1008ff7c {
        Sym::Spell
    } else if raw == 0x1008ff7d {
        Sym::SplitScreen
    } else if raw == 0x1008ff7e {
        Sym::Support
    } else if raw == 0x1008ff7f {
        Sym::TaskPane
    } else if raw == 0x1008ff80 {
        Sym::Terminal
    } else if raw == 0x1008ff81 {
        Sym::Tools
    } else if raw == 0x1008ff82 {
        Sym::Travel
    } else if raw == 0x1008ff87 {
        Sym::Video
    } else if raw == 0x1008ff89 {
        Sym::Word
    } else if raw == 0x1008ff8a {
        Sym::Xfer
    } else if raw == 0x1008ff8b {
        Sym::ZoomIn
    } else if raw == 0x1008ff8c {
        Sym::ZoomOut
    } else if raw == 0x1008ff8d {
        Sym::Away
    } else if raw == 0x1008ff8e {
        Sym::Messenger
    } else if raw == 0x1008ff8f {
        Sym::WebCam
    } else if raw == 0x1008ff90 {
        Sym::MailForward
    } else if raw == 0x1008ff91 {
        Sym::Pictures
    } else if raw == 0x1008ff92 {
        Sym::Music
    } else if raw == 0x1008ff93 {
        Sym::Battery
    } else if raw == 0x1008ff94 {
        Sym::Bluetooth
    } else if raw == 0x1008ff95 {
        Sym::WLAN
    } else if raw == 0x1008ff96 {
        Sym::UWB
    } else if raw == 0x1008ff97 {
        Sym::AudioForward
    } else if raw == 0x1008ff98 {
        Sym::AudioRepeat
    } else if raw == 0x1008ff99 {
        Sym::AudioRandomPlay
    } else if raw == 0x1008ff9a {
        Sym::Subtitle
    } else if raw == 0x1008ff9b {
        Sym::AudioCycleTrack
    } else if raw == 0x1008ff9f {
        Sym::Time
    } else if raw == 0x1008ffa0 {
        Sym::Select
    } else if raw == 0x1008ffa1 {
        Sym::View
    } else if raw == 0x1008ffa2 {
        Sym::TopMenu
    } else if raw == 0x1008ffa3 {
        Sym::Red
    } else if raw == 0x1008ffa4 {
        Sym::Green
    } else if raw == 0x1008ffa5 {
        Sym::Yellow
    } else if raw == 0x1008ffa6 {
        Sym::Blue
    } else if raw == 0x1008ffa7 {
        Sym::Suspend
    } else if raw == 0x1008ffa8 {
        Sym::Hibernate
    } else if raw == 0x1008ffa9 {
        Sym::TouchpadToggle
    } else if raw == 0x1008ffb0 {
        Sym::TouchpadOn
    } else if raw == 0x1008ffb1 {
        Sym::TouchpadOff
    } else if raw == 0x1008ffb2 {
        Sym::MicMute
    } else {
        Sym::Unknown
    }
}

fn table_sym(raw: u32) -> (s: Sym)
    ensures
        s == spec_table_sym(raw),
{
    match raw {
        0x0000fe03 => Sym::RightAlt,
        0x0000fe20 => Sym::LeftTab,
        0x0000ff08 => Sym::Backspace,
        0x0000ff09 => Sym::Tab,
        0x0000ff0b => Sym::Delete,
        0x0000ff0d => Sym::Return,
        0x0000ff13 => Sym::Pause,
        0x0000ff14 => Sym::ScrollLock,
        0x0000ff1b => Sym::Escape,
        0x0000ff50 => Sym::Home,
        0x0000ff51 => Sym::Left,
        0x0000ff52 => Sym::Up,
        0x0000ff53 => Sym::Right,
        0x0000ff54 => Sym::Down,
        0x0000ff55 => Sym::PageUp,
        0x0000ff56 => Sym::PageDown,
        0x0000ff57 => Sym::End,
        0x0000ff61 => Sym::Print,
        0x0000ff63 => Sym::Insert,
        0x0000ff67 => Sym::Menu,
        0x0000ff6a => Sym::Help,
        0x0000ff7e => Sym::ModeSwitch,
        0x0000ff7f => Sym::NumLock,
        0x0000ff8d => Sym::KP_Enter,
        0x0000ff95 => Sym::KP_Home,
        0x0000ff96 => Sym::KP_Left,
        0x0000ff97 => Sym::KP_Up,
        0x0000ff98 => Sym::KP_Right,
        0x0000ff99 => Sym::KP_Down,
        0x0000ff9a => Sym::KP_PageUp,
        0x0000ff9b => Sym::KP_PageDown,
        0x0000ff9c => Sym::KP_End,
        0x0000ff9d => Sym::KP_Begin,
        0x0000ff9f => Sym::KP_Delete,
        0x0000ffaa => Sym::KP_Multiply,
        0x0000ffab => Sym::KP_Add,
        0x0000ffac => Sym::KP_Separator,
        0x0000ffad => Sym::KP_Subtract,
        0x0000ffae => Sym::KP_Decimal,
        0x0000ffaf => Sym::KP_Divide,
        0x0000ffb0 => Sym::KP_0,
        0x0000ffb1 => Sym::KP_1,
        0x0000ffb2 => Sym::KP_2,
        0x0000ffb3 => Sym::KP_3,
        0x0000ffb4 => Sym::KP_4,
        0x0000ffb6 => Sym::KP_6,
        0x0000ffb7 => Sym::KP_7,
        0x0000ffb8 => Sym::KP_8,
        0x0000ffb9 => Sym::KP_9,
        0x0000ffbd => Sym::KP_Equal,
        0x0000ffe1 => Sym::LeftShift,
        0x0000ffe2 => Sym::RightShift,
        0x0000ffe3 => Sym::LeftCtrl,
        0x0000ffe4 => Sym::RightCtrl,
        0x0000ffe5 => Sym::CapsLock,
        0x0000ffe6 => Sym::Shift,
        0x0000ffe7 => Sym::LeftMeta,
        0x0000ffe8 => Sym::RightMeta,
        0x0000ffe9 => Sym::LeftAlt,
        0x0000ffea => Sym::RightAlt,
        0x0000ffeb => Sym::LeftSuper,
        0x0000ffec => Sym::RightSuper,
        0x0000ffff => Sym::Delete,
        0x1000ff74 => Sym::LeftTab,
        0x1005ff10 => Sym::F11,
        0x1005ff11 => Sym::F12,
        0x1005ff60 => Sym::SysRq,
        0x1007ff00 => Sym::SysRq,
        0x1008fe21 => Sym::ClearGrab,
        0x1008ff02 => Sym::MonBrightnessUp,
        0x1008ff03 => Sym::MonBrightnessDown,
        0x1008ff04 => Sym::KeyboardLightOnOff,
        0x1008ff05 => Sym::KeyboardBrightnessUp,
        0x1008ff06 => Sym::KeyboardBrightnessDown,
        0x1008ff10 => Sym::Standby,
        0x1008ff11 => Sym::VolumeDown,
        0x1008ff12 => Sym::VolumeMute,
        0x1008ff13 => Sym::VolumeUp,
        0x1008ff14 => Sym::MediaPlay,
        0x1008ff15 => Sym::MediaStop,
        0x1008ff16 => Sym::MediaPrevious,
        0x1008ff17 => Sym::MediaNext,
        0x1008ff18 => Sym::HomePage,
        0x1008ff19 => Sym::LaunchMail,
        0x1008ff1b => Sym::Search,
        0x1008ff1c => Sym::MediaRecord,
        0x1008ff1d => Sym::Calculator,
        0x1008ff1e => Sym::Memo,
        0x1008ff1f => Sym::ToDoList,
        0x1008ff20 => Sym::Calendar,
        0x1008ff21 => Sym::PowerDown,
        0x1008ff22 => Sym::ContrastAdjust,
        0x1008ff26 => Sym::Back,
        0x1008ff27 => Sym::Forward,
        0x1008ff28 => Sym::Stop,
        0x1008ff29 => Sym::Refresh,
        0x1008ff2a => Sym::PowerOff,
        0x1008ff2b => Sym::WakeUp,
        0x1008ff2c => Sym::Eject,
        0x1008ff2d => Sym::ScreenSaver,
        0x1008ff2e => Sym::WWW,
        0x1008ff2f => Sym::Sleep,
        0x1008ff30 => Sym::Favorites,
        0x1008ff31 => Sym::MediaPause,
        0x1008ff32 => Sym::LaunchMedia,
        0x1008ff33 => Sym::MyComputer,
        0x1008ff35 => Sym::LightBulb,
        0x1008ff36 => Sym::Shop,
        0x1008ff37 => Sym::History,
        0x1008ff38 => Sym::OpenUrl,
        0x1008ff39 => Sym::AddFavorite,
        0x1008ff3a => Sym::HotLinks,
        0x1008ff3b => Sym::BrightnessAdjust,
        0x1008ff3c => Sym::Finance,
        0x1008ff3d => Sym::Community,
        0x1008ff3e => Sym::AudioRewind,
        0x1008ff3f => Sym::BackForward,
        0x1008ff40 => Sym::Launch0,
        0x1008ff41 => Sym::Launch1,
        0x1008ff42 => Sym::Launch2,
        0x1008ff43 => Sym::Launch3,
        0x1008ff44 => Sym::Launch4,
        0x1008ff45 => Sym::Launch5,
        0x1008ff46 => Sym::Launch6,
        0x1008ff47 => Sym::Launch7,
        0x1008ff48 => Sym::Launch8,
        0x1008ff49 => Sym::Launch9,
        0x1008ff4a => Sym::LaunchA,
        0x1008ff4b => Sym::LaunchB,
        0x1008ff4c => Sym::LaunchC,
        0x1008ff4d => Sym::LaunchD,
        0x1008ff4e => Sym::LaunchE,
        0x1008ff4f => Sym::LaunchF,
        0x1008ff50 => Sym::ApplicationLeft,
        0x1008ff51 => Sym::ApplicationRight,
        0x1008ff52 => Sym::Book,
        0x1008ff53 => Sym::CD,
        0x1008ff54 => Sym::Calculator,
        0x1008ff55 => Sym::Clear,
        0x1008ff56 => Sym::Close,
        0x1008ff57 => Sym::Copy,
        0x1008ff58 => Sym::Cut,
        0x1008ff59 => Sym::Display,
        0x1008ff5a => Sym::DOS,
        0x1008ff5b => Sym::Documents,
        0x1008ff5c => Sym::Excel,
        0x1008ff5d => Sym::Explorer,
        0x1008ff5e => Sym::Game,
        0x1008ff5f => Sym::Go,
        0x1008ff60 => Sym::iTouch,
        0x1008ff61 => Sym::LogOff,
        0x1008ff62 => Sym::Market,
        0x1008ff63 => Sym::Meeting,
        0x1008ff65 => Sym::MenuKB,
        0x1008ff66 => Sym::MenuPB,
        0x1008ff67 => Sym::MySites,
        0x1008ff68 => Sym::New,
        0x1008ff69 => Sym::News,
        0x1008ff6a => Sym::OfficeHome,
        0x1008ff6b => Sym::Open,
        0x1008ff6c => Sym::OptionKey,
        0x1008ff6d => Sym::Paste,
        0x1008ff6e => Sym::Phone,
        0x1008ff72 => Sym::Reply,
        0x1008ff73 => Sym::Reload,
        0x1008ff74 => Sym::RotateWindows,
        0x1008ff75 => Sym::RotationPB,
        0x1008ff76 => Sym::RotationKB,
        0x1008ff77 => Sym::Save,
        0x1008ff7b => Sym::Send,
        0x1008ff7c => Sym::Spell,
        0x1008ff7d => Sym::SplitScreen,
        0x1008ff7e => Sym::Support,
        0x1008ff7f => Sym::TaskPane,
        0x1008ff80 => Sym::Terminal,
        0x1008ff81 => Sym::Tools,
        0x1008ff82 => Sym::Travel,
        0x1008ff87 => Sym::Video,
        0x1008ff89 => Sym::Word,
        0x1008ff8a => Sym::Xfer,
        0x1008ff8b => Sym::ZoomIn,
        0x1008ff8c => Sym::ZoomOut,
        0x1008ff8d => Sym::Away,
        0x1008ff8e => Sym::Messenger,
        0x1008ff8f => Sym::WebCam,
        0x1008ff90 => Sym::MailForward,
        0x1008ff91 => Sym::Pictures,
        0x1008ff92 => Sym::Music,
        0x1008ff93 => Sym::Battery,
        0x1008ff94 => Sym::Bluetooth,
        0x1008ff95 => Sym::WLAN,
        0x1008ff96 => Sym::UWB,
        0x1008ff97 => Sym::AudioForward,
        0x1008ff98 => Sym::AudioRepeat,
        0x1008ff99 => Sym::AudioRandomPlay,
        0x1008ff9a => Sym::Subtitle,
        0x1008ff9b => Sym::AudioCycleTrack,
        0x1008ff9f => Sym::Time,
        0x1008ffa0 => Sym::Select,
        0x1008ffa1 => Sym::View,
        0x1008ffa2 => Sym::TopMenu,
        0x1008ffa3 => Sym::Red,
        0x1008ffa4 => Sym::Green,
        0x1008ffa5 => Sym::Yellow,
        0x1008ffa6 => Sym::Blue,
        0x1008ffa7 => Sym::Suspend,
        0x1008ffa8 => Sym::Hibernate,
        0x1008ffa9 => Sym::TouchpadToggle,
        0x1008ffb0 => Sym::TouchpadOn,
        0x1008ffb1 => Sym::TouchpadOff,
        0x1008ffb2 => Sym::MicMute,
        _ => Sym::Unknown,
    }
}

/// Raw symbol to logical key symbol, resolved in three tiers: the printable
/// Latin-1 range (lowercase letters folded to their uppercase symbol), the
/// contiguous function-key range, then the sparse table; unmapped values
/// resolve to `Unknown`.
pub open spec fn spec_keysym(raw: u32) -> Sym {
    if KEYSYM_LATIN1_FIRST <= raw && raw < KEYSYM_LATIN1_END {
        if 0x61 <= raw && raw <= 0x7a {
            spec_latin1_sym((raw - 0x20) as u32)
        } else {
            spec_latin1_sym(raw)
        }
    } else if KEYSYM_F1 <= raw && raw <= KEYSYM_F24 {
        spec_fkey_seq()[raw - KEYSYM_F1]
    } else {
        spec_table_sym(raw)
    }
}

/// Total resolution of a raw protocol key symbol; never fails, unmapped
/// values degrade to `Unknown`.
pub fn sym_from_keysym(raw: u32) -> (s: Sym)
    ensures
        s == spec_keysym(raw),
{
    if raw >= KEYSYM_LATIN1_FIRST && raw < KEYSYM_LATIN1_END {
        if raw >= 0x61 && raw <= 0x7a {
            latin1_sym(raw - 0x20)
        } else {
            latin1_sym(raw)
        }
    } else if raw >= KEYSYM_F1 && raw <= KEYSYM_F24 {
        fkey_sym(raw - KEYSYM_F1)
    } else {
        table_sym(raw)
    }
}

/// The dense scan-code table: entry `i` is the key code of scan code `i`.
pub fn build_keycode_table() -> (t: Vec<Code>)
    ensures
        t@.len() == 256,
        forall|i: int| 0 <= i < 256 ==> t@[i] == spec_keycode(i as u8),
{
    let mut t: Vec<Code> = Vec::new();
    let mut i: usize = 0;
    while i < 256
        invariant
            i <= 256,
            t@.len() == i,
            forall|j: int| 0 <= j < i ==> t@[j] == spec_keycode(j as u8),
        decreases 256 - i,
    {
        t.push(keycode_from_raw(i as u8));
        i = i + 1;
    }
    t
}

/// Case folding: a lowercase Latin-1 letter resolves to the same logical
/// symbol as its uppercase counterpart.
pub proof fn lemma_keysym_case_fold(raw: u32)
    requires
        0x61 <= raw <= 0x7a,
    ensures
        spec_keysym(raw) == spec_keysym((raw - 0x20) as u32),
{
}

/// The contiguous raw function-key range resolves to F1..F24 exactly in
/// order, with no gaps.
pub proof fn lemma_keysym_function_keys(i: u32)
    requires
        i < 24,
    ensures
        spec_keysym((KEYSYM_F1 + i) as u32) == spec_fkey_seq()[i as int],
        spec_fkey_seq().len() == 24,
{
}

} // verus!
