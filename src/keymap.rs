use vstd::prelude::*;

verus! {

/// Layout independent key index: K1..K48 in the rows of the Dachen
/// keyboard; K0 for a key outside the 48.
#[derive(Clone, Copy, Debug, PartialEq, Eq, Structural, Hash)]
pub enum KeyIndex {
    K0,
    K1,
    K2,
    K3,
    K4,
    K5,
    K6,
    K7,
    K8,
    K9,
    K10,
    K11,
    K12,
    K13,
    K14,
    K15,
    K16,
    K17,
    K18,
    K19,
    K20,
    K21,
    K22,
    K23,
    K24,
    K25,
    K26,
    K27,
    K28,
    K29,
    K30,
    K31,
    K32,
    K33,
    K34,
    K35,
    K36,
    K37,
    K38,
    K39,
    K40,
    K41,
    K42,
    K43,
    K44,
    K45,
    K46,
    K47,
    K48,
}

/// Physical key codes of a 48-key keyboard.
#[derive(Clone, Copy, Debug, PartialEq, Eq, Structural, Hash)]
pub enum KeyCode {
    N1,
    N2,
    N3,
    N4,
    N5,
    N6,
    N7,
    N8,
    N9,
    N0,
    Minus,
    Equal,
    BSlash,
    Grave,
    Q,
    W,
    E,
    R,
    T,
    Y,
    U,
    I,
    O,
    P,
    LBracket,
    RBracket,
    A,
    S,
    D,
    F,
    G,
    H,
    J,
    K,
    L,
    SColon,
    Quote,
    Z,
    X,
    C,
    V,
    B,
    N,
    M,
    Comma,
    Dot,
    Slash,
    Space,
}

/// A key press: the layout independent index and the key code that the
/// editors read.
#[derive(Clone, Copy, Debug, PartialEq, Eq, Structural)]
pub struct KeyEvent {
    pub index: KeyIndex,
    pub code: KeyCode,
}

/// A physical arrangement of the 48 key codes.
#[derive(Clone, Copy, Debug, PartialEq, Eq, Structural)]
pub enum KeyboardLayout {
    Qwerty,
    Dvorak,
    Carpalx,
}

pub const QWERTY: KeyboardLayout = KeyboardLayout::Qwerty;

pub const DVORAK: KeyboardLayout = KeyboardLayout::Dvorak;

pub const CARPALX: KeyboardLayout = KeyboardLayout::Carpalx;

/// The key index at a 0-based position among the 48 keys.
pub open spec fn index_at(p: int) -> KeyIndex {
    if p == 0 {
        KeyIndex::K1
    } else if p == 1 {
        KeyIndex::K2
    } else if p == 2 {
        KeyIndex::K3
    } else if p == 3 {
        KeyIndex::K4
    } else if p == 4 {
        KeyIndex::K5
    } else if p == 5 {
        KeyIndex::K6
    } else if p == 6 {
        KeyIndex::K7
    } else if p == 7 {
        KeyIndex::K8
    } else if p == 8 {
        KeyIndex::K9
    } else if p == 9 {
        KeyIndex::K10
    } else if p == 10 {
        KeyIndex::K11
    } else if p == 11 {
        KeyIndex::K12
    } else if p == 12 {
        KeyIndex::K13
    } else if p == 13 {
        KeyIndex::K14
    } else if p == 14 {
        KeyIndex::K15
    } else if p == 15 {
        KeyIndex::K16
    } else if p == 16 {
        KeyIndex::K17
    } else if p == 17 {
        KeyIndex::K18
    } else if p == 18 {
        KeyIndex::K19
    } else if p == 19 {
        KeyIndex::K20
    } else if p == 20 {
        KeyIndex::K21
    } else if p == 21 {
        KeyIndex::K22
    } else if p == 22 {
        KeyIndex::K23
    } else if p == 23 {
        KeyIndex::K24
    } else if p == 24 {
        KeyIndex::K25
    } else if p == 25 {
        KeyIndex::K26
    } else if p == 26 {
        KeyIndex::K27
    } else if p == 27 {
        KeyIndex::K28
    } else if p == 28 {
        KeyIndex::K29
    } else if p == 29 {
        KeyIndex::K30
    } else if p == 30 {
        KeyIndex::K31
    } else if p == 31 {
        KeyIndex::K32
    } else if p == 32 {
        KeyIndex::K33
    } else if p == 33 {
        KeyIndex::K34
    } else if p == 34 {
        KeyIndex::K35
    } else if p == 35 {
        KeyIndex::K36
    } else if p == 36 {
        KeyIndex::K37
    } else if p == 37 {
        KeyIndex::K38
    } else if p == 38 {
        KeyIndex::K39
    } else if p == 39 {
        KeyIndex::K40
    } else if p == 40 {
        KeyIndex::K41
    } else if p == 41 {
        KeyIndex::K42
    } else if p == 42 {
        KeyIndex::K43
    } else if p == 43 {
        KeyIndex::K44
    } else if p == 44 {
        KeyIndex::K45
    } else if p == 45 {
        KeyIndex::K46
    } else if p == 46 {
        KeyIndex::K47
    } else if p == 47 {
        KeyIndex::K48
    } else {
        KeyIndex::K0
    }
}

/// The key code at a 0-based position of a layout.
pub open spec fn code_at(layout: KeyboardLayout, p: int) -> KeyCode {
    match layout {
        KeyboardLayout::Qwerty => {
            if p == 0 {
                KeyCode::N1
            } else if p == 1 {
                KeyCode::N2
            } else if p == 2 {
                KeyCode::N3
            } else if p == 3 {
                KeyCode::N4
            } else if p == 4 {
                KeyCode::N5
            } else if p == 5 {
                KeyCode::N6
            } else if p == 6 {
                KeyCode::N7
            } else if p == 7 {
                KeyCode::N8
            } else if p == 8 {
                KeyCode::N9
            } else if p == 9 {
                KeyCode::N0
            } else if p == 10 {
                KeyCode::Minus
            } else if p == 11 {
                KeyCode::Equal
            } else if p == 12 {
                KeyCode::BSlash
            } else if p == 13 {
                KeyCode::Grave
            } else if p == 14 {
                KeyCode::Q
            } else if p == 15 {
                KeyCode::W
            } else if p == 16 {
                KeyCode::E
            } else if p == 17 {
                KeyCode::R
            } else if p == 18 {
                KeyCode::T
            } else if p == 19 {
                KeyCode::Y
            } else if p == 20 {
                KeyCode::U
            } else if p == 21 {
                KeyCode::I
            } else if p == 22 {
                KeyCode::O
            } else if p == 23 {
                KeyCode::P
            } else if p == 24 {
                KeyCode::LBracket
            } else if p == 25 {
                KeyCode::RBracket
            } else if p == 26 {
                KeyCode::A
            } else if p == 27 {
                KeyCode::S
            } else if p == 28 {
                KeyCode::D
            } else if p == 29 {
                KeyCode::F
            } else if p == 30 {
                KeyCode::G
            } else if p == 31 {
                KeyCode::H
            } else if p == 32 {
                KeyCode::J
            } else if p == 33 {
                KeyCode::K
            } else if p == 34 {
                KeyCode::L
            } else if p == 35 {
                KeyCode::SColon
            } else if p == 36 {
                KeyCode::Quote
            } else if p == 37 {
                KeyCode::Z
            } else if p == 38 {
                KeyCode::X
            } else if p == 39 {
                KeyCode::C
            } else if p == 40 {
                KeyCode::V
            } else if p == 41 {
                KeyCode::B
            } else if p == 42 {
                KeyCode::N
            } else if p == 43 {
                KeyCode::M
            } else if p == 44 {
                KeyCode::Comma
            } else if p == 45 {
                KeyCode::Dot
            } else if p == 46 {
                KeyCode::Slash
            } else {
                KeyCode::Space
            }
        },
        KeyboardLayout::Dvorak => {
            if p == 0 {
                KeyCode::N1
            } else if p == 1 {
                KeyCode::N2
            } else if p == 2 {
                KeyCode::N3
            } else if p == 3 {
                KeyCode::N4
            } else if p == 4 {
                KeyCode::N5
            } else if p == 5 {
                KeyCode::N6
            } else if p == 6 {
                KeyCode::N7
            } else if p == 7 {
                KeyCode::N8
            } else if p == 8 {
                KeyCode::N9
            } else if p == 9 {
                KeyCode::N0
            } else if p == 10 {
                KeyCode::LBracket
            } else if p == 11 {
                KeyCode::RBracket
            } else if p == 12 {
                KeyCode::BSlash
            } else if p == 13 {
                KeyCode::Grave
            } else if p == 14 {
                KeyCode::Quote
            } else if p == 15 {
                KeyCode::Comma
            } else if p == 16 {
                KeyCode::Dot
            } else if p == 17 {
                KeyCode::P
            } else if p == 18 {
                KeyCode::Y
            } else if p == 19 {
                KeyCode::F
            } else if p == 20 {
                KeyCode::G
            } else if p == 21 {
                KeyCode::C
            } else if p == 22 {
                KeyCode::R
            } else if p == 23 {
                KeyCode::L
            } else if p == 24 {
                KeyCode::Slash
            } else if p == 25 {
                KeyCode::Equal
            } else if p == 26 {
                KeyCode::A
            } else if p == 27 {
                KeyCode::O
            } else if p == 28 {
                KeyCode::E
            } else if p == 29 {
                KeyCode::U
            } else if p == 30 {
                KeyCode::I
            } else if p == 31 {
                KeyCode::D
            } else if p == 32 {
                KeyCode::H
            } else if p == 33 {
                KeyCode::T
            } else if p == 34 {
                KeyCode::N
            } else if p == 35 {
                KeyCode::S
            } else if p == 36 {
                KeyCode::Minus
            } else if p == 37 {
                KeyCode::SColon
            } else if p == 38 {
                KeyCode::Q
            } else if p == 39 {
                KeyCode::J
            } else if p == 40 {
                KeyCode::K
            } else if p == 41 {
                KeyCode::X
            } else if p == 42 {
                KeyCode::B
            } else if p == 43 {
                KeyCode::M
            } else if p == 44 {
                KeyCode::W
            } else if p == 45 {
                KeyCode::V
            } else if p == 46 {
                KeyCode::Z
            } else {
                KeyCode::Space
            }
        },
        KeyboardLayout::Carpalx => {
            if p == 0 {
                KeyCode::N1
            } else if p == 1 {
                KeyCode::N2
            } else if p == 2 {
                KeyCode::N3
            } else if p == 3 {
                KeyCode::N4
            } else if p == 4 {
                KeyCode::N5
            } else if p == 5 {
                KeyCode::N6
            } else if p == 6 {
                KeyCode::N7
            } else if p == 7 {
                KeyCode::N8
            } else if p == 8 {
                KeyCode::N9
            } else if p == 9 {
                KeyCode::N0
            } else if p == 10 {
                KeyCode::Minus
            } else if p == 11 {
                KeyCode::Equal
            } else if p == 12 {
                KeyCode::BSlash
            } else if p == 13 {
                KeyCode::Grave
            } else if p == 14 {
                KeyCode::Q
            } else if p == 15 {
                KeyCode::G
            } else if p == 16 {
                KeyCode::M
            } else if p == 17 {
                KeyCode::L
            } else if p == 18 {
                KeyCode::W
            } else if p == 19 {
                KeyCode::Y
            } else if p == 20 {
                KeyCode::F
            } else if p == 21 {
                KeyCode::U
            } else if p == 22 {
                KeyCode::B
            } else if p == 23 {
                KeyCode::SColon
            } else if p == 24 {
                KeyCode::LBracket
            } else if p == 25 {
                KeyCode::RBracket
            } else if p == 26 {
                KeyCode::D
            } else if p == 27 {
                KeyCode::S
            } else if p == 28 {
                KeyCode::T
            } else if p == 29 {
                KeyCode::N
            } else if p == 30 {
                KeyCode::R
            } else if p == 31 {
                KeyCode::I
            } else if p == 32 {
                KeyCode::A
            } else if p == 33 {
                KeyCode::E
            } else if p == 34 {
                KeyCode::O
            } else if p == 35 {
                KeyCode::H
            } else if p == 36 {
                KeyCode::Quote
            } else if p == 37 {
                KeyCode::Z
            } else if p == 38 {
                KeyCode::X
            } else if p == 39 {
                KeyCode::C
            } else if p == 40 {
                KeyCode::V
            } else if p == 41 {
                KeyCode::J
            } else if p == 42 {
                KeyCode::K
            } else if p == 43 {
                KeyCode::P
            } else if p == 44 {
                KeyCode::Comma
            } else if p == 45 {
                KeyCode::Dot
            } else if p == 46 {
                KeyCode::Slash
            } else {
                KeyCode::Space
            }
        },
    }
}

/// The 0-based position of a key code in a layout.
pub open spec fn layout_position(layout: KeyboardLayout, code: KeyCode) -> int {
    match layout {
        KeyboardLayout::Qwerty => match code {
            KeyCode::N1 => 0,
            KeyCode::N2 => 1,
            KeyCode::N3 => 2,
            KeyCode::N4 => 3,
            KeyCode::N5 => 4,
            KeyCode::N6 => 5,
            KeyCode::N7 => 6,
            KeyCode::N8 => 7,
            KeyCode::N9 => 8,
            KeyCode::N0 => 9,
            KeyCode::Minus => 10,
            KeyCode::Equal => 11,
            KeyCode::BSlash => 12,
            KeyCode::Grave => 13,
            KeyCode::Q => 14,
            KeyCode::W => 15,
            KeyCode::E => 16,
            KeyCode::R => 17,
            KeyCode::T => 18,
            KeyCode::Y => 19,
            KeyCode::U => 20,
            KeyCode::I => 21,
            KeyCode::O => 22,
            KeyCode::P => 23,
            KeyCode::LBracket => 24,
            KeyCode::RBracket => 25,
            KeyCode::A => 26,
            KeyCode::S => 27,
            KeyCode::D => 28,
            KeyCode::F => 29,
            KeyCode::G => 30,
            KeyCode::H => 31,
            KeyCode::J => 32,
            KeyCode::K => 33,
            KeyCode::L => 34,
            KeyCode::SColon => 35,
            KeyCode::Quote => 36,
            KeyCode::Z => 37,
            KeyCode::X => 38,
            KeyCode::C => 39,
            KeyCode::V => 40,
            KeyCode::B => 41,
            KeyCode::N => 42,
            KeyCode::M => 43,
            KeyCode::Comma => 44,
            KeyCode::Dot => 45,
            KeyCode::Slash => 46,
            KeyCode::Space => 47,
        },
        KeyboardLayout::Dvorak => match code {
            KeyCode::N1 => 0,
            KeyCode::N2 => 1,
            KeyCode::N3 => 2,
            KeyCode::N4 => 3,
            KeyCode::N5 => 4,
            KeyCode::N6 => 5,
            KeyCode::N7 => 6,
            KeyCode::N8 => 7,
            KeyCode::N9 => 8,
            KeyCode::N0 => 9,
            KeyCode::Minus => 36,
            KeyCode::Equal => 25,
            KeyCode::BSlash => 12,
            KeyCode::Grave => 13,
            KeyCode::Q => 38,
            KeyCode::W => 44,
            KeyCode::E => 28,
            KeyCode::R => 22,
            KeyCode::T => 33,
            KeyCode::Y => 18,
            KeyCode::U => 29,
            KeyCode::I => 30,
            KeyCode::O => 27,
            KeyCode::P => 17,
            KeyCode::LBracket => 10,
            KeyCode::RBracket => 11,
            KeyCode::A => 26,
            KeyCode::S => 35,
            KeyCode::D => 31,
            KeyCode::F => 19,
            KeyCode::G => 20,
            KeyCode::H => 32,
            KeyCode::J => 39,
            KeyCode::K => 40,
            KeyCode::L => 23,
            KeyCode::SColon => 37,
            KeyCode::Quote => 14,
            KeyCode::Z => 46,
            KeyCode::X => 41,
            KeyCode::C => 21,
            KeyCode::V => 45,
            KeyCode::B => 42,
            KeyCode::N => 34,
            KeyCode::M => 43,
            KeyCode::Comma => 15,
            KeyCode::Dot => 16,
            KeyCode::Slash => 24,
            KeyCode::Space => 47,
        },
        KeyboardLayout::Carpalx => match code {
            KeyCode::N1 => 0,
            KeyCode::N2 => 1,
            KeyCode::N3 => 2,
            KeyCode::N4 => 3,
            KeyCode::N5 => 4,
            KeyCode::N6 => 5,
            KeyCode::N7 => 6,
            KeyCode::N8 => 7,
            KeyCode::N9 => 8,
            KeyCode::N0 => 9,
            KeyCode::Minus => 10,
            KeyCode::Equal => 11,
            KeyCode::BSlash => 12,
            KeyCode::Grave => 13,
            KeyCode::Q => 14,
            KeyCode::W => 18,
            KeyCode::E => 33,
            KeyCode::R => 30,
            KeyCode::T => 28,
            KeyCode::Y => 19,
            KeyCode::U => 21,
            KeyCode::I => 31,
            KeyCode::O => 34,
            KeyCode::P => 43,
            KeyCode::LBracket => 24,
            KeyCode::RBracket => 25,
            KeyCode::A => 32,
            KeyCode::S => 27,
            KeyCode::D => 26,
            KeyCode::F => 20,
            KeyCode::G => 15,
            KeyCode::H => 35,
            KeyCode::J => 41,
            KeyCode::K => 42,
            KeyCode::L => 17,
            KeyCode::SColon => 23,
            KeyCode::Quote => 36,
            KeyCode::Z => 37,
            KeyCode::X => 38,
            KeyCode::C => 39,
            KeyCode::V => 40,
            KeyCode::B => 22,
            KeyCode::N => 29,
            KeyCode::M => 16,
            KeyCode::Comma => 44,
            KeyCode::Dot => 45,
            KeyCode::Slash => 46,
            KeyCode::Space => 47,
        },
    }
}

/// The key index of each ASCII character (by its code) on a QWERTY
/// keyboard; K0 for any other byte.
pub open spec fn qwerty_char_index(b: u8) -> KeyIndex {
    if b == 49 {
        KeyIndex::K1
    } else if b == 50 {
        KeyIndex::K2
    } else if b == 51 {
        KeyIndex::K3
    } else if b == 52 {
        KeyIndex::K4
    } else if b == 53 {
        KeyIndex::K5
    } else if b == 54 {
        KeyIndex::K6
    } else if b == 55 {
        KeyIndex::K7
    } else if b == 56 {
        KeyIndex::K8
    } else if b == 57 {
        KeyIndex::K9
    } else if b == 48 {
        KeyIndex::K10
    } else if b == 45 {
        KeyIndex::K11
    } else if b == 61 {
        KeyIndex::K12
    } else if b == 92 {
        KeyIndex::K13
    } else if b == 96 {
        KeyIndex::K14
    } else if b == 113 {
        KeyIndex::K15
    } else if b == 119 {
        KeyIndex::K16
    } else if b == 101 {
        KeyIndex::K17
    } else if b == 114 {
        KeyIndex::K18
    } else if b == 116 {
        KeyIndex::K19
    } else if b == 121 {
        KeyIndex::K20
    } else if b == 117 {
        KeyIndex::K21
    } else if b == 105 {
        KeyIndex::K22
    } else if b == 111 {
        KeyIndex::K23
    } else if b == 112 {
        KeyIndex::K24
    } else if b == 91 {
        KeyIndex::K25
    } else if b == 93 {
        KeyIndex::K26
    } else if b == 97 {
        KeyIndex::K27
    } else if b == 115 {
        KeyIndex::K28
    } else if b == 100 {
        KeyIndex::K29
    } else if b == 102 {
        KeyIndex::K30
    } else if b == 103 {
        KeyIndex::K31
    } else if b == 104 {
        KeyIndex::K32
    } else if b == 106 {
        KeyIndex::K33
    } else if b == 107 {
        KeyIndex::K34
    } else if b == 108 {
        KeyIndex::K35
    } else if b == 59 {
        KeyIndex::K36
    } else if b == 39 {
        KeyIndex::K37
    } else if b == 122 {
        KeyIndex::K38
    } else if b == 120 {
        KeyIndex::K39
    } else if b == 99 {
        KeyIndex::K40
    } else if b == 118 {
        KeyIndex::K41
    } else if b == 98 {
        KeyIndex::K42
    } else if b == 110 {
        KeyIndex::K43
    } else if b == 109 {
        KeyIndex::K44
    } else if b == 44 {
        KeyIndex::K45
    } else if b == 46 {
        KeyIndex::K46
    } else if b == 47 {
        KeyIndex::K47
    } else if b == 32 {
        KeyIndex::K48
    } else {
        KeyIndex::K0
    }
}

fn index_of_position(p: usize) -> (r: KeyIndex)
    requires
        p < 48,
    ensures
        r == index_at(p as int),
{
    match p {
        0 => KeyIndex::K1,
        1 => KeyIndex::K2,
        2 => KeyIndex::K3,
        3 => KeyIndex::K4,
        4 => KeyIndex::K5,
        5 => KeyIndex::K6,
        6 => KeyIndex::K7,
        7 => KeyIndex::K8,
        8 => KeyIndex::K9,
        9 => KeyIndex::K10,
        10 => KeyIndex::K11,
        11 => KeyIndex::K12,
        12 => KeyIndex::K13,
        13 => KeyIndex::K14,
        14 => KeyIndex::K15,
        15 => KeyIndex::K16,
        16 => KeyIndex::K17,
        17 => KeyIndex::K18,
        18 => KeyIndex::K19,
        19 => KeyIndex::K20,
        20 => KeyIndex::K21,
        21 => KeyIndex::K22,
        22 => KeyIndex::K23,
        23 => KeyIndex::K24,
        24 => KeyIndex::K25,
        25 => KeyIndex::K26,
        26 => KeyIndex::K27,
        27 => KeyIndex::K28,
        28 => KeyIndex::K29,
        29 => KeyIndex::K30,
        30 => KeyIndex::K31,
        31 => KeyIndex::K32,
        32 => KeyIndex::K33,
        33 => KeyIndex::K34,
        34 => KeyIndex::K35,
        35 => KeyIndex::K36,
        36 => KeyIndex::K37,
        37 => KeyIndex::K38,
        38 => KeyIndex::K39,
        39 => KeyIndex::K40,
        40 => KeyIndex::K41,
        41 => KeyIndex::K42,
        42 => KeyIndex::K43,
        43 => KeyIndex::K44,
        44 => KeyIndex::K45,
        45 => KeyIndex::K46,
        46 => KeyIndex::K47,
        _ => KeyIndex::K48,
    }
}

/// Position of a key code in a layout.
fn position_in(layout: KeyboardLayout, code: KeyCode) -> (r: usize)
    ensures
        r < 48,
        r as int == layout_position(layout, code),
        code_at(layout, r as int) == code,
{
    match layout {
        KeyboardLayout::Qwerty => match code {
            KeyCode::N1 => 0,
            KeyCode::N2 => 1,
            KeyCode::N3 => 2,
            KeyCode::N4 => 3,
            KeyCode::N5 => 4,
            KeyCode::N6 => 5,
            KeyCode::N7 => 6,
            KeyCode::N8 => 7,
            KeyCode::N9 => 8,
            KeyCode::N0 => 9,
            KeyCode::Minus => 10,
            KeyCode::Equal => 11,
            KeyCode::BSlash => 12,
            KeyCode::Grave => 13,
            KeyCode::Q => 14,
            KeyCode::W => 15,
            KeyCode::E => 16,
            KeyCode::R => 17,
            KeyCode::T => 18,
            KeyCode::Y => 19,
            KeyCode::U => 20,
            KeyCode::I => 21,
            KeyCode::O => 22,
            KeyCode::P => 23,
            KeyCode::LBracket => 24,
            KeyCode::RBracket => 25,
            KeyCode::A => 26,
            KeyCode::S => 27,
            KeyCode::D => 28,
            KeyCode::F => 29,
            KeyCode::G => 30,
            KeyCode::H => 31,
            KeyCode::J => 32,
            KeyCode::K => 33,
            KeyCode::L => 34,
            KeyCode::SColon => 35,
            KeyCode::Quote => 36,
            KeyCode::Z => 37,
            KeyCode::X => 38,
            KeyCode::C => 39,
            KeyCode::V => 40,
            KeyCode::B => 41,
            KeyCode::N => 42,
            KeyCode::M => 43,
            KeyCode::Comma => 44,
            KeyCode::Dot => 45,
            KeyCode::Slash => 46,
            KeyCode::Space => 47,
        },
        KeyboardLayout::Dvorak => match code {
            KeyCode::N1 => 0,
            KeyCode::N2 => 1,
            KeyCode::N3 => 2,
            KeyCode::N4 => 3,
            KeyCode::N5 => 4,
            KeyCode::N6 => 5,
            KeyCode::N7 => 6,
            KeyCode::N8 => 7,
            KeyCode::N9 => 8,
            KeyCode::N0 => 9,
            KeyCode::Minus => 36,
            KeyCode::Equal => 25,
            KeyCode::BSlash => 12,
            KeyCode::Grave => 13,
            KeyCode::Q => 38,
            KeyCode::W => 44,
            KeyCode::E => 28,
            KeyCode::R => 22,
            KeyCode::T => 33,
            KeyCode::Y => 18,
            KeyCode::U => 29,
            KeyCode::I => 30,
            KeyCode::O => 27,
            KeyCode::P => 17,
            KeyCode::LBracket => 10,
            KeyCode::RBracket => 11,
            KeyCode::A => 26,
            KeyCode::S => 35,
            KeyCode::D => 31,
            KeyCode::F => 19,
            KeyCode::G => 20,
            KeyCode::H => 32,
            KeyCode::J => 39,
            KeyCode::K => 40,
            KeyCode::L => 23,
            KeyCode::SColon => 37,
            KeyCode::Quote => 14,
            KeyCode::Z => 46,
            KeyCode::X => 41,
            KeyCode::C => 21,
            KeyCode::V => 45,
            KeyCode::B => 42,
            KeyCode::N => 34,
            KeyCode::M => 43,
            KeyCode::Comma => 15,
            KeyCode::Dot => 16,
            KeyCode::Slash => 24,
            KeyCode::Space => 47,
        },
        KeyboardLayout::Carpalx => match code {
            KeyCode::N1 => 0,
            KeyCode::N2 => 1,
            KeyCode::N3 => 2,
            KeyCode::N4 => 3,
            KeyCode::N5 => 4,
            KeyCode::N6 => 5,
            KeyCode::N7 => 6,
            KeyCode::N8 => 7,
            KeyCode::N9 => 8,
            KeyCode::N0 => 9,
            KeyCode::Minus => 10,
            KeyCode::Equal => 11,
            KeyCode::BSlash => 12,
            KeyCode::Grave => 13,
            KeyCode::Q => 14,
            KeyCode::W => 18,
            KeyCode::E => 33,
            KeyCode::R => 30,
            KeyCode::T => 28,
            KeyCode::Y => 19,
            KeyCode::U => 21,
            KeyCode::I => 31,
            KeyCode::O => 34,
            KeyCode::P => 43,
            KeyCode::LBracket => 24,
            KeyCode::RBracket => 25,
            KeyCode::A => 32,
            KeyCode::S => 27,
            KeyCode::D => 26,
            KeyCode::F => 20,
            KeyCode::G => 15,
            KeyCode::H => 35,
            KeyCode::J => 41,
            KeyCode::K => 42,
            KeyCode::L => 17,
            KeyCode::SColon => 23,
            KeyCode::Quote => 36,
            KeyCode::Z => 37,
            KeyCode::X => 38,
            KeyCode::C => 39,
            KeyCode::V => 40,
            KeyCode::B => 22,
            KeyCode::N => 29,
            KeyCode::M => 16,
            KeyCode::Comma => 44,
            KeyCode::Dot => 45,
            KeyCode::Slash => 46,
            KeyCode::Space => 47,
        },
    }
}

fn code_at_position(layout: KeyboardLayout, p: usize) -> (r: KeyCode)
    requires
        p < 48,
    ensures
        r == code_at(layout, p as int),
{
    match layout {
        KeyboardLayout::Qwerty => match p {
            0 => KeyCode::N1,
            1 => KeyCode::N2,
            2 => KeyCode::N3,
            3 => KeyCode::N4,
            4 => KeyCode::N5,
            5 => KeyCode::N6,
            6 => KeyCode::N7,
            7 => KeyCode::N8,
            8 => KeyCode::N9,
            9 => KeyCode::N0,
            10 => KeyCode::Minus,
            11 => KeyCode::Equal,
            12 => KeyCode::BSlash,
            13 => KeyCode::Grave,
            14 => KeyCode::Q,
            15 => KeyCode::W,
            16 => KeyCode::E,
            17 => KeyCode::R,
            18 => KeyCode::T,
            19 => KeyCode::Y,
            20 => KeyCode::U,
            21 => KeyCode::I,
            22 => KeyCode::O,
            23 => KeyCode::P,
            24 => KeyCode::LBracket,
            25 => KeyCode::RBracket,
            26 => KeyCode::A,
            27 => KeyCode::S,
            28 => KeyCode::D,
            29 => KeyCode::F,
            30 => KeyCode::G,
            31 => KeyCode::H,
            32 => KeyCode::J,
            33 => KeyCode::K,
            34 => KeyCode::L,
            35 => KeyCode::SColon,
            36 => KeyCode::Quote,
            37 => KeyCode::Z,
            38 => KeyCode::X,
            39 => KeyCode::C,
            40 => KeyCode::V,
            41 => KeyCode::B,
            42 => KeyCode::N,
            43 => KeyCode::M,
            44 => KeyCode::Comma,
            45 => KeyCode::Dot,
            46 => KeyCode::Slash,
            _ => KeyCode::Space,
        },
        KeyboardLayout::Dvorak => match p {
            0 => KeyCode::N1,
            1 => KeyCode::N2,
            2 => KeyCode::N3,
            3 => KeyCode::N4,
            4 => KeyCode::N5,
            5 => KeyCode::N6,
            6 => KeyCode::N7,
            7 => KeyCode::N8,
            8 => KeyCode::N9,
            9 => KeyCode::N0,
            10 => KeyCode::LBracket,
            11 => KeyCode::RBracket,
            12 => KeyCode::BSlash,
            13 => KeyCode::Grave,
            14 => KeyCode::Quote,
            15 => KeyCode::Comma,
            16 => KeyCode::Dot,
            17 => KeyCode::P,
            18 => KeyCode::Y,
            19 => KeyCode::F,
            20 => KeyCode::G,
            21 => KeyCode::C,
            22 => KeyCode::R,
            23 => KeyCode::L,
            24 => KeyCode::Slash,
            25 => KeyCode::Equal,
            26 => KeyCode::A,
            27 => KeyCode::O,
            28 => KeyCode::E,
            29 => KeyCode::U,
            30 => KeyCode::I,
            31 => KeyCode::D,
            32 => KeyCode::H,
            33 => KeyCode::T,
            34 => KeyCode::N,
            35 => KeyCode::S,
            36 => KeyCode::Minus,
            37 => KeyCode::SColon,
            38 => KeyCode::Q,
            39 => KeyCode::J,
            40 => KeyCode::K,
            41 => KeyCode::X,
            42 => KeyCode::B,
            43 => KeyCode::M,
            44 => KeyCode::W,
            45 => KeyCode::V,
            46 => KeyCode::Z,
            _ => KeyCode::Space,
        },
        KeyboardLayout::Carpalx => match p {
            0 => KeyCode::N1,
            1 => KeyCode::N2,
            2 => KeyCode::N3,
            3 => KeyCode::N4,
            4 => KeyCode::N5,
            5 => KeyCode::N6,
            6 => KeyCode::N7,
            7 => KeyCode::N8,
            8 => KeyCode::N9,
            9 => KeyCode::N0,
            10 => KeyCode::Minus,
            11 => KeyCode::Equal,
            12 => KeyCode::BSlash,
            13 => KeyCode::Grave,
            14 => KeyCode::Q,
            15 => KeyCode::G,
            16 => KeyCode::M,
            17 => KeyCode::L,
            18 => KeyCode::W,
            19 => KeyCode::Y,
            20 => KeyCode::F,
            21 => KeyCode::U,
            22 => KeyCode::B,
            23 => KeyCode::SColon,
            24 => KeyCode::LBracket,
            25 => KeyCode::RBracket,
            26 => KeyCode::D,
            27 => KeyCode::S,
            28 => KeyCode::T,
            29 => KeyCode::N,
            30 => KeyCode::R,
            31 => KeyCode::I,
            32 => KeyCode::A,
            33 => KeyCode::E,
            34 => KeyCode::O,
            35 => KeyCode::H,
            36 => KeyCode::Quote,
            37 => KeyCode::Z,
            38 => KeyCode::X,
            39 => KeyCode::C,
            40 => KeyCode::V,
            41 => KeyCode::J,
            42 => KeyCode::K,
            43 => KeyCode::P,
            44 => KeyCode::Comma,
            45 => KeyCode::Dot,
            46 => KeyCode::Slash,
            _ => KeyCode::Space,
        },
    }
}

/// The event of a key on a layout read as itself.
pub open spec fn identity_event(layout: KeyboardLayout, code: KeyCode) -> KeyEvent {
    KeyEvent { index: index_at(layout_position(layout, code)), code }
}

/// The event of a key of `source` read as the key of `target` at the same
/// position.
pub open spec fn remapped_event(source: KeyboardLayout, target: KeyboardLayout, code: KeyCode) -> KeyEvent {
    let p = layout_position(source, code);
    KeyEvent { index: index_at(p), code: code_at(target, p) }
}

/// Maps a key of one physical layout to the key index at the same
/// position, keeping the key code.
#[derive(Clone, Copy, Debug)]
pub struct IdentityKeymap {
    pub layout: KeyboardLayout,
}

impl IdentityKeymap {
    pub fn new(layout: KeyboardLayout) -> (r: IdentityKeymap)
        ensures
            r.layout == layout,
    {
        IdentityKeymap { layout }
    }

    /// The key index at the key's position, with the key's own code.
    pub fn map_key(&self, code: KeyCode) -> (r: KeyEvent)
        ensures
            r == identity_event(self.layout, code),
            code_at(self.layout, layout_position(self.layout, code)) == code,
    {
        let p = position_in(self.layout, code);
        KeyEvent { index: index_of_position(p), code }
    }
}

/// Maps a key of the user's physical layout to the key of the target
/// layout at the same position, so that it types the same symbol.
#[derive(Clone, Copy, Debug)]
pub struct RemappingKeymap {
    pub source: KeyboardLayout,
    pub target: KeyboardLayout,
}

impl RemappingKeymap {
    pub fn new(source: KeyboardLayout, target: KeyboardLayout) -> (r: RemappingKeymap)
        ensures
            r.source == source,
            r.target == target,
    {
        RemappingKeymap { source, target }
    }

    /// The key index and the target key code at the key's position in the
    /// source layout.
    pub fn map_key(&self, code: KeyCode) -> (r: KeyEvent)
        ensures
            r == remapped_event(self.source, self.target, code),
            code_at(self.source, layout_position(self.source, code)) == code,
    {
        let p = position_in(self.source, code);
        KeyEvent { index: index_of_position(p), code: code_at_position(self.target, p) }
    }
}

/// The key index of a character typed on a QWERTY keyboard.
pub fn key_index_from_qwerty(b: u8) -> (r: KeyIndex)
    ensures
        r == qwerty_char_index(b),
{
    match b {
        49 => KeyIndex::K1,
        50 => KeyIndex::K2,
        51 => KeyIndex::K3,
        52 => KeyIndex::K4,
        53 => KeyIndex::K5,
        54 => KeyIndex::K6,
        55 => KeyIndex::K7,
        56 => KeyIndex::K8,
        57 => KeyIndex::K9,
        48 => KeyIndex::K10,
        45 => KeyIndex::K11,
        61 => KeyIndex::K12,
        92 => KeyIndex::K13,
        96 => KeyIndex::K14,
        113 => KeyIndex::K15,
        119 => KeyIndex::K16,
        101 => KeyIndex::K17,
        114 => KeyIndex::K18,
        116 => KeyIndex::K19,
        121 => KeyIndex::K20,
        117 => KeyIndex::K21,
        105 => KeyIndex::K22,
        111 => KeyIndex::K23,
        112 => KeyIndex::K24,
        91 => KeyIndex::K25,
        93 => KeyIndex::K26,
        97 => KeyIndex::K27,
        115 => KeyIndex::K28,
        100 => KeyIndex::K29,
        102 => KeyIndex::K30,
        103 => KeyIndex::K31,
        104 => KeyIndex::K32,
        106 => KeyIndex::K33,
        107 => KeyIndex::K34,
        108 => KeyIndex::K35,
        59 => KeyIndex::K36,
        39 => KeyIndex::K37,
        122 => KeyIndex::K38,
        120 => KeyIndex::K39,
        99 => KeyIndex::K40,
        118 => KeyIndex::K41,
        98 => KeyIndex::K42,
        110 => KeyIndex::K43,
        109 => KeyIndex::K44,
        44 => KeyIndex::K45,
        46 => KeyIndex::K46,
        47 => KeyIndex::K47,
        32 => KeyIndex::K48,
        _ => KeyIndex::K0,
    }
}

/// Reading a QWERTY character as a key index.
pub trait KeyIndexFromQwerty {
    fn as_key_index(&self) -> KeyIndex;
}

impl KeyIndexFromQwerty for u8 {
    fn as_key_index(&self) -> KeyIndex {
        key_index_from_qwerty(*self)
    }
}

} // verus!
