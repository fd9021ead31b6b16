use vstd::prelude::*;

verus! {

/// The category of a phonetic symbol.
///
/// Zhuyin consists of 37 letters and tone marks, each in exactly one of
/// four categories: initial sounds, medial glides, rimes and tones.
#[derive(Debug, Clone, Copy, PartialEq, Eq, Structural, Hash)]
pub enum BopomofoKind {
    Initial,
    Medial,
    Rime,
    Tone,
}

/// Zhuyin Fuhao, commonly called bopomofo.
#[derive(Debug, Clone, Copy, PartialEq, Eq, Structural, Hash)]
pub enum Bopomofo {
    /// ㄅ
    B,
    /// ㄆ
    P,
    /// ㄇ
    M,
    /// ㄈ
    F,
    /// ㄉ
    D,
    /// ㄊ
    T,
    /// ㄋ
    N,
    /// ㄌ
    L,
    /// ㄍ
    G,
    /// ㄎ
    K,
    /// ㄏ
    H,
    /// ㄐ
    J,
    /// ㄑ
    Q,
    /// ㄒ
    X,
    /// ㄓ
    ZH,
    /// ㄔ
    CH,
    /// ㄕ
    SH,
    /// ㄖ
    R,
    /// ㄗ
    Z,
    /// ㄘ
    C,
    /// ㄙ
    S,
    /// ㄧ
    I,
    /// ㄨ
    U,
    /// ㄩ
    IU,
    /// ㄚ
    A,
    /// ㄛ
    O,
    /// ㄜ
    E,
    /// ㄝ
    EH,
    /// ㄞ
    AI,
    /// ㄟ
    EI,
    /// ㄠ
    AU,
    /// ㄡ
    OU,
    /// ㄢ
    AN,
    /// ㄣ
    EN,
    /// ㄤ
    ANG,
    /// ㄥ
    ENG,
    /// ㄦ
    ER,
    /// ˙
    TONE5,
    /// ˊ
    TONE2,
    /// ˇ
    TONE3,
    /// ˋ
    TONE4,
    /// ˉ
    TONE1,
}

/// Error returned when a character is not a bopomofo symbol.
#[derive(Debug, Clone, Copy, PartialEq, Eq, Structural)]
pub enum BopomofoParseError {
    Unknown,
}

/// 1-based position of an initial in ㄅㄆㄇㄈㄉㄊㄋㄌㄍㄎㄏㄐㄑㄒㄓㄔㄕㄖㄗㄘㄙ; 0 for other symbols.
pub open spec fn initial_index_of(b: Bopomofo) -> int {
    match b {
        Bopomofo::B => 1,
        Bopomofo::P => 2,
        Bopomofo::M => 3,
        Bopomofo::F => 4,
        Bopomofo::D => 5,
        Bopomofo::T => 6,
        Bopomofo::N => 7,
        Bopomofo::L => 8,
        Bopomofo::G => 9,
        Bopomofo::K => 10,
        Bopomofo::H => 11,
        Bopomofo::J => 12,
        Bopomofo::Q => 13,
        Bopomofo::X => 14,
        Bopomofo::ZH => 15,
        Bopomofo::CH => 16,
        Bopomofo::SH => 17,
        Bopomofo::R => 18,
        Bopomofo::Z => 19,
        Bopomofo::C => 20,
        Bopomofo::S => 21,
        _ => 0,
    }
}

/// 1-based position of a medial in ㄧㄨㄩ; 0 for other symbols.
pub open spec fn medial_index_of(b: Bopomofo) -> int {
    match b {
        Bopomofo::I => 1,
        Bopomofo::U => 2,
        Bopomofo::IU => 3,
        _ => 0,
    }
}

/// 1-based position of a rime in ㄚㄛㄜㄝㄞㄟㄠㄡㄢㄣㄤㄥㄦ; 0 for other symbols.
pub open spec fn rime_index_of(b: Bopomofo) -> int {
    match b {
        Bopomofo::A => 1,
        Bopomofo::O => 2,
        Bopomofo::E => 3,
        Bopomofo::EH => 4,
        Bopomofo::AI => 5,
        Bopomofo::EI => 6,
        Bopomofo::AU => 7,
        Bopomofo::OU => 8,
        Bopomofo::AN => 9,
        Bopomofo::EN => 10,
        Bopomofo::ANG => 11,
        Bopomofo::ENG => 12,
        Bopomofo::ER => 13,
        _ => 0,
    }
}

/// Position of a marked tone in ˙ˊˇˋ (1-based); 0 for the unmarked first
/// tone and for every other symbol.
pub open spec fn tone_index_of(b: Bopomofo) -> int {
    match b {
        Bopomofo::TONE5 => 1,
        Bopomofo::TONE2 => 2,
        Bopomofo::TONE3 => 3,
        Bopomofo::TONE4 => 4,
        _ => 0,
    }
}

pub open spec fn kind_of(b: Bopomofo) -> BopomofoKind {
    if initial_index_of(b) != 0 {
        BopomofoKind::Initial
    } else if medial_index_of(b) != 0 {
        BopomofoKind::Medial
    } else if rime_index_of(b) != 0 {
        BopomofoKind::Rime
    } else {
        BopomofoKind::Tone
    }
}

/// The initial at a 1-based position.
pub open spec fn initial_at(i: int) -> Bopomofo
    recommends
        1 <= i <= 21,
{
    if i == 1 {
        Bopomofo::B
    } else if i == 2 {
        Bopomofo::P
    } else if i == 3 {
        Bopomofo::M
    } else if i == 4 {
        Bopomofo::F
    } else if i == 5 {
        Bopomofo::D
    } else if i == 6 {
        Bopomofo::T
    } else if i == 7 {
        Bopomofo::N
    } else if i == 8 {
        Bopomofo::L
    } else if i == 9 {
        Bopomofo::G
    } else if i == 10 {
        Bopomofo::K
    } else if i == 11 {
        Bopomofo::H
    } else if i == 12 {
        Bopomofo::J
    } else if i == 13 {
        Bopomofo::Q
    } else if i == 14 {
        Bopomofo::X
    } else if i == 15 {
        Bopomofo::ZH
    } else if i == 16 {
        Bopomofo::CH
    } else if i == 17 {
        Bopomofo::SH
    } else if i == 18 {
        Bopomofo::R
    } else if i == 19 {
        Bopomofo::Z
    } else if i == 20 {
        Bopomofo::C
    } else {
        Bopomofo::S
    }
}

/// The medial at a 1-based position.
pub open spec fn medial_at(i: int) -> Bopomofo
    recommends
        1 <= i <= 3,
{
    if i == 1 {
        Bopomofo::I
    } else if i == 2 {
        Bopomofo::U
    } else {
        Bopomofo::IU
    }
}

/// The rime at a 1-based position.
pub open spec fn rime_at(i: int) -> Bopomofo
    recommends
        1 <= i <= 13,
{
    if i == 1 {
        Bopomofo::A
    } else if i == 2 {
        Bopomofo::O
    } else if i == 3 {
        Bopomofo::E
    } else if i == 4 {
        Bopomofo::EH
    } else if i == 5 {
        Bopomofo::AI
    } else if i == 6 {
        Bopomofo::EI
    } else if i == 7 {
        Bopomofo::AU
    } else if i == 8 {
        Bopomofo::OU
    } else if i == 9 {
        Bopomofo::AN
    } else if i == 10 {
        Bopomofo::EN
    } else if i == 11 {
        Bopomofo::ANG
    } else if i == 12 {
        Bopomofo::ENG
    } else {
        Bopomofo::ER
    }
}

/// The marked tone at a 1-based position.
pub open spec fn tone_at(i: int) -> Bopomofo
    recommends
        1 <= i <= 4,
{
    if i == 1 {
        Bopomofo::TONE5
    } else if i == 2 {
        Bopomofo::TONE2
    } else if i == 3 {
        Bopomofo::TONE3
    } else {
        Bopomofo::TONE4
    }
}

/// The character that renders a symbol.
pub open spec fn char_of(b: Bopomofo) -> char {
    match b {
        Bopomofo::B => 'ㄅ',
        Bopomofo::P => 'ㄆ',
        Bopomofo::M => 'ㄇ',
        Bopomofo::F => 'ㄈ',
        Bopomofo::D => 'ㄉ',
        Bopomofo::T => 'ㄊ',
        Bopomofo::N => 'ㄋ',
        Bopomofo::L => 'ㄌ',
        Bopomofo::G => 'ㄍ',
        Bopomofo::K => 'ㄎ',
        Bopomofo::H => 'ㄏ',
        Bopomofo::J => 'ㄐ',
        Bopomofo::Q => 'ㄑ',
        Bopomofo::X => 'ㄒ',
        Bopomofo::ZH => 'ㄓ',
        Bopomofo::CH => 'ㄔ',
        Bopomofo::SH => 'ㄕ',
        Bopomofo::R => 'ㄖ',
        Bopomofo::Z => 'ㄗ',
        Bopomofo::C => 'ㄘ',
        Bopomofo::S => 'ㄙ',
        Bopomofo::I => 'ㄧ',
        Bopomofo::U => 'ㄨ',
        Bopomofo::IU => 'ㄩ',
        Bopomofo::A => 'ㄚ',
        Bopomofo::O => 'ㄛ',
        Bopomofo::E => 'ㄜ',
        Bopomofo::EH => 'ㄝ',
        Bopomofo::AI => 'ㄞ',
        Bopomofo::EI => 'ㄟ',
        Bopomofo::AU => 'ㄠ',
        Bopomofo::OU => 'ㄡ',
        Bopomofo::AN => 'ㄢ',
        Bopomofo::EN => 'ㄣ',
        Bopomofo::ANG => 'ㄤ',
        Bopomofo::ENG => 'ㄥ',
        Bopomofo::ER => 'ㄦ',
        Bopomofo::TONE5 => '˙',
        Bopomofo::TONE2 => 'ˊ',
        Bopomofo::TONE3 => 'ˇ',
        Bopomofo::TONE4 => 'ˋ',
        Bopomofo::TONE1 => 'ˉ',
    }
}

proof fn lemma_char_of_cases(b: Bopomofo)
    ensures
        ('ㄅ' <= char_of(b) <= 'ㄩ') || char_of(b) == 'ˉ' || char_of(b) == '˙' || char_of(b) == 'ˊ'
            || char_of(b) == 'ˇ' || char_of(b) == 'ˋ',
{
}

/// Symbols at their positions round-trip through the position tables.
pub proof fn lemma_index_round_trip(b: Bopomofo)
    ensures
        kind_of(b) == BopomofoKind::Initial ==> 1 <= initial_index_of(b) <= 21 && initial_at(
            initial_index_of(b),
        ) == b,
        kind_of(b) == BopomofoKind::Medial ==> 1 <= medial_index_of(b) <= 3 && medial_at(
            medial_index_of(b),
        ) == b,
        kind_of(b) == BopomofoKind::Rime ==> 1 <= rime_index_of(b) <= 13 && rime_at(
            rime_index_of(b),
        ) == b,
        kind_of(b) == BopomofoKind::Tone && b != Bopomofo::TONE1 ==> 1 <= tone_index_of(b) <= 4
            && tone_at(tone_index_of(b)) == b,
{
}

/// Positions name their symbols, and the symbols sit at those positions.
pub proof fn lemma_at_round_trip(i: int)
    ensures
        1 <= i <= 21 ==> initial_index_of(initial_at(i)) == i && kind_of(initial_at(i))
            == BopomofoKind::Initial,
        1 <= i <= 3 ==> medial_index_of(medial_at(i)) == i && kind_of(medial_at(i))
            == BopomofoKind::Medial,
        1 <= i <= 13 ==> rime_index_of(rime_at(i)) == i && kind_of(rime_at(i))
            == BopomofoKind::Rime,
        1 <= i <= 4 ==> tone_index_of(tone_at(i)) == i && kind_of(tone_at(i))
            == BopomofoKind::Tone && tone_at(i) != Bopomofo::TONE1,
{
}

impl Bopomofo {
    /// The category of the symbol.
    pub fn kind(&self) -> (r: BopomofoKind)
        ensures
            r == kind_of(*self),
    {
        match self {
            Bopomofo::B | Bopomofo::P | Bopomofo::M | Bopomofo::F | Bopomofo::D | Bopomofo::T
            | Bopomofo::N | Bopomofo::L | Bopomofo::G | Bopomofo::K | Bopomofo::H | Bopomofo::J
            | Bopomofo::Q | Bopomofo::X | Bopomofo::ZH | Bopomofo::CH | Bopomofo::SH
            | Bopomofo::R | Bopomofo::Z | Bopomofo::C | Bopomofo::S => BopomofoKind::Initial,
            Bopomofo::I | Bopomofo::U | Bopomofo::IU => BopomofoKind::Medial,
            Bopomofo::A | Bopomofo::O | Bopomofo::E | Bopomofo::EH | Bopomofo::AI | Bopomofo::EI
            | Bopomofo::AU | Bopomofo::OU | Bopomofo::AN | Bopomofo::EN | Bopomofo::ANG
            | Bopomofo::ENG | Bopomofo::ER => BopomofoKind::Rime,
            Bopomofo::TONE1 | Bopomofo::TONE2 | Bopomofo::TONE3 | Bopomofo::TONE4
            | Bopomofo::TONE5 => BopomofoKind::Tone,
        }
    }

    /// The initial at a 1-based position.
    pub fn from_initial(index: i32) -> (r: Bopomofo)
        requires
            1 <= index <= 21,
        ensures
            r == initial_at(index as int),
    {
        match index {
            1 => Bopomofo::B,
            2 => Bopomofo::P,
            3 => Bopomofo::M,
            4 => Bopomofo::F,
            5 => Bopomofo::D,
            6 => Bopomofo::T,
            7 => Bopomofo::N,
            8 => Bopomofo::L,
            9 => Bopomofo::G,
            10 => Bopomofo::K,
            11 => Bopomofo::H,
            12 => Bopomofo::J,
            13 => Bopomofo::Q,
            14 => Bopomofo::X,
            15 => Bopomofo::ZH,
            16 => Bopomofo::CH,
            17 => Bopomofo::SH,
            18 => Bopomofo::R,
            19 => Bopomofo::Z,
            20 => Bopomofo::C,
            _ => Bopomofo::S,
        }
    }

    /// The medial at a 1-based position.
    pub fn from_medial(index: i32) -> (r: Bopomofo)
        requires
            1 <= index <= 3,
        ensures
            r == medial_at(index as int),
    {
        match index {
            1 => Bopomofo::I,
            2 => Bopomofo::U,
            _ => Bopomofo::IU,
        }
    }

    /// The rime at a 1-based position.
    pub fn from_rime(index: i32) -> (r: Bopomofo)
        requires
            1 <= index <= 13,
        ensures
            r == rime_at(index as int),
    {
        match index {
            1 => Bopomofo::A,
            2 => Bopomofo::O,
            3 => Bopomofo::E,
            4 => Bopomofo::EH,
            5 => Bopomofo::AI,
            6 => Bopomofo::EI,
            7 => Bopomofo::AU,
            8 => Bopomofo::OU,
            9 => Bopomofo::AN,
            10 => Bopomofo::EN,
            11 => Bopomofo::ANG,
            12 => Bopomofo::ENG,
            _ => Bopomofo::ER,
        }
    }

    /// Rimes are also called finals: the rime at a 1-based position.
    pub fn from_final(index: i32) -> (r: Bopomofo)
        requires
            1 <= index <= 13,
        ensures
            r == rime_at(index as int),
    {
        Bopomofo::from_rime(index)
    }

    /// The marked tone at a 1-based position in ˙ˊˇˋ.
    pub fn from_tone(index: i32) -> (r: Bopomofo)
        requires
            1 <= index <= 4,
        ensures
            r == tone_at(index as int),
    {
        match index {
            1 => Bopomofo::TONE5,
            2 => Bopomofo::TONE2,
            3 => Bopomofo::TONE3,
            _ => Bopomofo::TONE4,
        }
    }

    /// 1-based position of an initial.
    pub fn initial_index(&self) -> (r: i32)
        requires
            kind_of(*self) == BopomofoKind::Initial,
        ensures
            r == initial_index_of(*self),
    {
        match self {
            Bopomofo::B => 1,
            Bopomofo::P => 2,
            Bopomofo::M => 3,
            Bopomofo::F => 4,
            Bopomofo::D => 5,
            Bopomofo::T => 6,
            Bopomofo::N => 7,
            Bopomofo::L => 8,
            Bopomofo::G => 9,
            Bopomofo::K => 10,
            Bopomofo::H => 11,
            Bopomofo::J => 12,
            Bopomofo::Q => 13,
            Bopomofo::X => 14,
            Bopomofo::ZH => 15,
            Bopomofo::CH => 16,
            Bopomofo::SH => 17,
            Bopomofo::R => 18,
            Bopomofo::Z => 19,
            Bopomofo::C => 20,
            _ => 21,
        }
    }

    /// 1-based position of a medial.
    pub fn medial_index(&self) -> (r: i32)
        requires
            kind_of(*self) == BopomofoKind::Medial,
        ensures
            r == medial_index_of(*self),
    {
        match self {
            Bopomofo::I => 1,
            Bopomofo::U => 2,
            _ => 3,
        }
    }

    /// 1-based position of a rime.
    pub fn rime_index(&self) -> (r: i32)
        requires
            kind_of(*self) == BopomofoKind::Rime,
        ensures
            r == rime_index_of(*self),
    {
        match self {
            Bopomofo::A => 1,
            Bopomofo::O => 2,
            Bopomofo::E => 3,
            Bopomofo::EH => 4,
            Bopomofo::AI => 5,
            Bopomofo::EI => 6,
            Bopomofo::AU => 7,
            Bopomofo::OU => 8,
            Bopomofo::AN => 9,
            Bopomofo::EN => 10,
            Bopomofo::ANG => 11,
            Bopomofo::ENG => 12,
            _ => 13,
        }
    }

    /// Rimes are also called finals: 1-based position of a rime.
    pub fn final_index(&self) -> (r: i32)
        requires
            kind_of(*self) == BopomofoKind::Rime,
        ensures
            r == rime_index_of(*self),
    {
        self.rime_index()
    }

    /// 1-based position of a marked tone in ˙ˊˇˋ.
    pub fn tone_index(&self) -> (r: i32)
        requires
            kind_of(*self) == BopomofoKind::Tone,
            *self != Bopomofo::TONE1,
        ensures
            r == tone_index_of(*self),
    {
        match self {
            Bopomofo::TONE5 => 1,
            Bopomofo::TONE2 => 2,
            Bopomofo::TONE3 => 3,
            _ => 4,
        }
    }

    /// Parses the character that renders a symbol.
    pub fn from_char(c: char) -> (r: Result<Bopomofo, BopomofoParseError>)
        ensures
            r matches Ok(b) ==> char_of(b) == c,
            r is Err ==> forall|b: Bopomofo| char_of(b) != c,
    {
        let r = match c {
            'ㄅ' => Ok(Bopomofo::B),
            'ㄆ' => Ok(Bopomofo::P),
            'ㄇ' => Ok(Bopomofo::M),
            'ㄈ' => Ok(Bopomofo::F),
            'ㄉ' => Ok(Bopomofo::D),
            'ㄊ' => Ok(Bopomofo::T),
            'ㄋ' => Ok(Bopomofo::N),
            'ㄌ' => Ok(Bopomofo::L),
            'ㄍ' => Ok(Bopomofo::G),
            'ㄎ' => Ok(Bopomofo::K),
            'ㄏ' => Ok(Bopomofo::H),
            'ㄐ' => Ok(Bopomofo::J),
            'ㄑ' => Ok(Bopomofo::Q),
            'ㄒ' => Ok(Bopomofo::X),
            'ㄓ' => Ok(Bopomofo::ZH),
            'ㄔ' => Ok(Bopomofo::CH),
            'ㄕ' => Ok(Bopomofo::SH),
            'ㄖ' => Ok(Bopomofo::R),
            'ㄗ' => Ok(Bopomofo::Z),
            'ㄘ' => Ok(Bopomofo::C),
            'ㄙ' => Ok(Bopomofo::S),
            'ㄚ' => Ok(Bopomofo::A),
            'ㄛ' => Ok(Bopomofo::O),
            'ㄜ' => Ok(Bopomofo::E),
            'ㄝ' => Ok(Bopomofo::EH),
            'ㄞ' => Ok(Bopomofo::AI),
            'ㄟ' => Ok(Bopomofo::EI),
            'ㄠ' => Ok(Bopomofo::AU),
            'ㄡ' => Ok(Bopomofo::OU),
            'ㄢ' => Ok(Bopomofo::AN),
            'ㄣ' => Ok(Bopomofo::EN),
            'ㄤ' => Ok(Bopomofo::ANG),
            'ㄥ' => Ok(Bopomofo::ENG),
            'ㄦ' => Ok(Bopomofo::ER),
            'ㄧ' => Ok(Bopomofo::I),
            'ㄨ' => Ok(Bopomofo::U),
            'ㄩ' => Ok(Bopomofo::IU),
            'ˉ' => Ok(Bopomofo::TONE1),
            '˙' => Ok(Bopomofo::TONE5),
            'ˊ' => Ok(Bopomofo::TONE2),
            'ˇ' => Ok(Bopomofo::TONE3),
            'ˋ' => Ok(Bopomofo::TONE4),
            _ => Err(BopomofoParseError::Unknown),
        };
        proof {
            if r is Err {
                assert forall|b: Bopomofo| char_of(b) != c by {
                    lemma_char_of_cases(b);
                }
            }
        }
        r
    }

    /// The character that renders the symbol.
    pub fn to_char(&self) -> (r: char)
        ensures
            r == char_of(*self),
    {
        match self {
            Bopomofo::B => 'ㄅ',
            Bopomofo::P => 'ㄆ',
            Bopomofo::M => 'ㄇ',
            Bopomofo::F => 'ㄈ',
            Bopomofo::D => 'ㄉ',
            Bopomofo::T => 'ㄊ',
            Bopomofo::N => 'ㄋ',
            Bopomofo::L => 'ㄌ',
            Bopomofo::G => 'ㄍ',
            Bopomofo::K => 'ㄎ',
            Bopomofo::H => 'ㄏ',
            Bopomofo::J => 'ㄐ',
            Bopomofo::Q => 'ㄑ',
            Bopomofo::X => 'ㄒ',
            Bopomofo::ZH => 'ㄓ',
            Bopomofo::CH => 'ㄔ',
            Bopomofo::SH => 'ㄕ',
            Bopomofo::R => 'ㄖ',
            Bopomofo::Z => 'ㄗ',
            Bopomofo::C => 'ㄘ',
            Bopomofo::S => 'ㄙ',
            Bopomofo::I => 'ㄧ',
            Bopomofo::U => 'ㄨ',
            Bopomofo::IU => 'ㄩ',
            Bopomofo::A => 'ㄚ',
            Bopomofo::O => 'ㄛ',
            Bopomofo::E => 'ㄜ',
            Bopomofo::EH => 'ㄝ',
            Bopomofo::AI => 'ㄞ',
            Bopomofo::EI => 'ㄟ',
            Bopomofo::AU => 'ㄠ',
            Bopomofo::OU => 'ㄡ',
            Bopomofo::AN => 'ㄢ',
            Bopomofo::EN => 'ㄣ',
            Bopomofo::ANG => 'ㄤ',
            Bopomofo::ENG => 'ㄥ',
            Bopomofo::ER => 'ㄦ',
            Bopomofo::TONE5 => '˙',
            Bopomofo::TONE2 => 'ˊ',
            Bopomofo::TONE3 => 'ˇ',
            Bopomofo::TONE4 => 'ˋ',
            Bopomofo::TONE1 => 'ˉ',
        }
    }
    /// The symbol rendered as a one-character string.
    pub fn as_str(&self) -> (r: &'static str)
        ensures
            r@ == seq![char_of(*self)],
    {
        match self {
            Bopomofo::B => {
                proof {
                    reveal_strlit("ㄅ");
                }
                "ㄅ"
            },
            Bopomofo::P => {
                proof {
                    reveal_strlit("ㄆ");
                }
                "ㄆ"
            },
            Bopomofo::M => {
                proof {
                    reveal_strlit("ㄇ");
                }
                "ㄇ"
            },
            Bopomofo::F => {
                proof {
                    reveal_strlit("ㄈ");
                }
                "ㄈ"
            },
            Bopomofo::D => {
                proof {
                    reveal_strlit("ㄉ");
                }
                "ㄉ"
            },
            Bopomofo::T => {
                proof {
                    reveal_strlit("ㄊ");
                }
                "ㄊ"
            },
            Bopomofo::N => {
                proof {
                    reveal_strlit("ㄋ");
                }
                "ㄋ"
            },
            Bopomofo::L => {
                proof {
                    reveal_strlit("ㄌ");
                }
                "ㄌ"
            },
            Bopomofo::G => {
                proof {
                    reveal_strlit("ㄍ");
                }
                "ㄍ"
            },
            Bopomofo::K => {
                proof {
                    reveal_strlit("ㄎ");
                }
                "ㄎ"
            },
            Bopomofo::H => {
                proof {
                    reveal_strlit("ㄏ");
                }
                "ㄏ"
            },
            Bopomofo::J => {
                proof {
                    reveal_strlit("ㄐ");
                }
                "ㄐ"
            },
            Bopomofo::Q => {
                proof {
                    reveal_strlit("ㄑ");
                }
                "ㄑ"
            },
            Bopomofo::X => {
                proof {
                    reveal_strlit("ㄒ");
                }
                "ㄒ"
            },
            Bopomofo::ZH => {
                proof {
                    reveal_strlit("ㄓ");
                }
                "ㄓ"
            },
            Bopomofo::CH => {
                proof {
                    reveal_strlit("ㄔ");
                }
                "ㄔ"
            },
            Bopomofo::SH => {
                proof {
                    reveal_strlit("ㄕ");
                }
                "ㄕ"
            },
            Bopomofo::R => {
                proof {
                    reveal_strlit("ㄖ");
                }
                "ㄖ"
            },
            Bopomofo::Z => {
                proof {
                    reveal_strlit("ㄗ");
                }
                "ㄗ"
            },
            Bopomofo::C => {
                proof {
                    reveal_strlit("ㄘ");
                }
                "ㄘ"
            },
            Bopomofo::S => {
                proof {
                    reveal_strlit("ㄙ");
                }
                "ㄙ"
            },
            Bopomofo::I => {
                proof {
                    reveal_strlit("ㄧ");
                }
                "ㄧ"
            },
            Bopomofo::U => {
                proof {
                    reveal_strlit("ㄨ");
                }
                "ㄨ"
            },
            Bopomofo::IU => {
                proof {
                    reveal_strlit("ㄩ");
                }
                "ㄩ"
            },
            Bopomofo::A => {
                proof {
                    reveal_strlit("ㄚ");
                }
                "ㄚ"
            },
            Bopomofo::O => {
                proof {
                    reveal_strlit("ㄛ");
                }
                "ㄛ"
            },
            Bopomofo::E => {
                proof {
                    reveal_strlit("ㄜ");
                }
                "ㄜ"
            },
            Bopomofo::EH => {
                proof {
                    reveal_strlit("ㄝ");
                }
                "ㄝ"
            },
            Bopomofo::AI => {
                proof {
                    reveal_strlit("ㄞ");
                }
                "ㄞ"
            },
            Bopomofo::EI => {
                proof {
                    reveal_strlit("ㄟ");
                }
                "ㄟ"
            },
            Bopomofo::AU => {
                proof {
                    reveal_strlit("ㄠ");
                }
                "ㄠ"
            },
            Bopomofo::OU => {
                proof {
                    reveal_strlit("ㄡ");
                }
                "ㄡ"
            },
            Bopomofo::AN => {
                proof {
                    reveal_strlit("ㄢ");
                }
                "ㄢ"
            },
            Bopomofo::EN => {
                proof {
                    reveal_strlit("ㄣ");
                }
                "ㄣ"
            },
            Bopomofo::ANG => {
                proof {
                    reveal_strlit("ㄤ");
                }
                "ㄤ"
            },
            Bopomofo::ENG => {
                proof {
                    reveal_strlit("ㄥ");
                }
                "ㄥ"
            },
            Bopomofo::ER => {
                proof {
                    reveal_strlit("ㄦ");
                }
                "ㄦ"
            },
            Bopomofo::TONE5 => {
                proof {
                    reveal_strlit("˙");
                }
                "˙"
            },
            Bopomofo::TONE2 => {
                proof {
                    reveal_strlit("ˊ");
                }
                "ˊ"
            },
            Bopomofo::TONE3 => {
                proof {
                    reveal_strlit("ˇ");
                }
                "ˇ"
            },
            Bopomofo::TONE4 => {
                proof {
                    reveal_strlit("ˋ");
                }
                "ˋ"
            },
            Bopomofo::TONE1 => {
                proof {
                    reveal_strlit("ˉ");
                }
                "ˉ"
            },
        }
    }
}

} // verus!
