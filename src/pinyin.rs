use vstd::prelude::*;

use crate::bopomofo::Bopomofo;
use crate::editor::KeyBehavior;
use crate::keymap::{KeyCode, KeyEvent};
use crate::syllable::{updated, Syllable};
use vstd::string::StrSliceExecFns;

verus! {

/// The longest spelling the editor buffers.
pub const MAX_PINYIN_LEN: usize = 10;

/// Romanization systems.
#[derive(Clone, Copy, Debug, PartialEq, Eq, Structural)]
pub enum PinyinVariant {
    HanyuPinyin,
    ThlPinyin,
    Mps2Pinyin,
}

pub open spec fn is_prefix(p: Seq<char>, s: Seq<char>) -> bool {
    p.len() <= s.len() && s.subrange(0, p.len() as int) == p
}

fn str_eq(a: &str, b: &str) -> (r: bool)
    ensures
        r == (a@ == b@),
{
    let la = a.unicode_len();
    let lb = b.unicode_len();
    if la != lb {
        return false;
    }
    let mut i: usize = 0;
    while i < la
        invariant
            i <= la,
            la == a@.len(),
            lb == b@.len(),
            la == lb,
            forall|j: int| 0 <= j < i ==> a@[j] == b@[j],
        decreases la - i,
    {
        if a.get_char(i) != b.get_char(i) {
            return false;
        }
        i = i + 1;
    }
    proof {
        assert(a@ =~= b@);
    }
    true
}

fn str_starts_with(s: &str, p: &str) -> (r: bool)
    ensures
        r == is_prefix(p@, s@),
{
    let ls = s.unicode_len();
    let lp = p.unicode_len();
    if lp > ls {
        return false;
    }
    let mut i: usize = 0;
    while i < lp
        invariant
            i <= lp,
            lp <= ls,
            ls == s@.len(),
            lp == p@.len(),
            forall|j: int| 0 <= j < i ==> s@[j] == p@[j],
        decreases lp - i,
    {
        if s.get_char(i) != p.get_char(i) {
            assert(s@.subrange(0, lp as int)[i as int] != p@[i as int]);
            return false;
        }
        i = i + 1;
    }
    proof {
        assert(s@.subrange(0, lp as int) =~= p@);
    }
    true
}

/// Spellings shared by every variant, with a primary and an alternate reading.
pub open spec fn common_entry(s: Seq<char>) -> Option<(Syllable, Syllable)> {
    if s == "tzu"@ {
        Some((Syllable { initial: Some(Bopomofo::Z), medial: None, rime: None, tone: None }, Syllable { initial: Some(Bopomofo::Z), medial: Some(Bopomofo::U), rime: None, tone: None }))
    } else if s == "ssu"@ {
        Some((Syllable { initial: Some(Bopomofo::S), medial: None, rime: None, tone: None }, Syllable { initial: Some(Bopomofo::S), medial: Some(Bopomofo::U), rime: None, tone: None }))
    } else if s == "szu"@ {
        Some((Syllable { initial: Some(Bopomofo::S), medial: None, rime: None, tone: None }, Syllable { initial: Some(Bopomofo::S), medial: Some(Bopomofo::U), rime: None, tone: None }))
    } else if s == "e"@ {
        Some((Syllable { initial: None, medial: None, rime: Some(Bopomofo::E), tone: None }, Syllable { initial: None, medial: None, rime: Some(Bopomofo::EH), tone: None }))
    } else if s == "ch"@ {
        Some((Syllable { initial: Some(Bopomofo::CH), medial: None, rime: None, tone: None }, Syllable { initial: Some(Bopomofo::Q), medial: None, rime: None, tone: None }))
    } else if s == "sh"@ {
        Some((Syllable { initial: Some(Bopomofo::SH), medial: None, rime: None, tone: None }, Syllable { initial: Some(Bopomofo::X), medial: None, rime: None, tone: None }))
    } else if s == "c"@ {
        Some((Syllable { initial: Some(Bopomofo::C), medial: None, rime: None, tone: None }, Syllable { initial: Some(Bopomofo::Q), medial: None, rime: None, tone: None }))
    } else if s == "s"@ {
        Some((Syllable { initial: Some(Bopomofo::S), medial: None, rime: None, tone: None }, Syllable { initial: Some(Bopomofo::X), medial: None, rime: None, tone: None }))
    } else if s == "nu"@ {
        Some((Syllable { initial: Some(Bopomofo::N), medial: Some(Bopomofo::U), rime: None, tone: None }, Syllable { initial: Some(Bopomofo::N), medial: Some(Bopomofo::IU), rime: None, tone: None }))
    } else if s == "lu"@ {
        Some((Syllable { initial: Some(Bopomofo::L), medial: Some(Bopomofo::U), rime: None, tone: None }, Syllable { initial: Some(Bopomofo::L), medial: Some(Bopomofo::IU), rime: None, tone: None }))
    } else if s == "luan"@ {
        Some((Syllable { initial: Some(Bopomofo::L), medial: Some(Bopomofo::U), rime: Some(Bopomofo::AN), tone: None }, Syllable { initial: Some(Bopomofo::L), medial: Some(Bopomofo::IU), rime: Some(Bopomofo::AN), tone: None }))
    } else if s == "niu"@ {
        Some((Syllable { initial: Some(Bopomofo::N), medial: Some(Bopomofo::I), rime: Some(Bopomofo::OU), tone: None }, Syllable { initial: Some(Bopomofo::N), medial: Some(Bopomofo::IU), rime: None, tone: None }))
    } else if s == "liu"@ {
        Some((Syllable { initial: Some(Bopomofo::L), medial: Some(Bopomofo::I), rime: Some(Bopomofo::OU), tone: None }, Syllable { initial: Some(Bopomofo::L), medial: Some(Bopomofo::IU), rime: None, tone: None }))
    } else if s == "jiu"@ {
        Some((Syllable { initial: Some(Bopomofo::J), medial: Some(Bopomofo::I), rime: Some(Bopomofo::OU), tone: None }, Syllable { initial: Some(Bopomofo::J), medial: Some(Bopomofo::IU), rime: None, tone: None }))
    } else if s == "chiu"@ {
        Some((Syllable { initial: Some(Bopomofo::Q), medial: Some(Bopomofo::I), rime: Some(Bopomofo::OU), tone: None }, Syllable { initial: Some(Bopomofo::Q), medial: Some(Bopomofo::IU), rime: None, tone: None }))
    } else if s == "shiu"@ {
        Some((Syllable { initial: Some(Bopomofo::X), medial: Some(Bopomofo::I), rime: Some(Bopomofo::OU), tone: None }, Syllable { initial: Some(Bopomofo::X), medial: Some(Bopomofo::IU), rime: None, tone: None }))
    } else if s == "ju"@ {
        Some((Syllable { initial: Some(Bopomofo::J), medial: Some(Bopomofo::IU), rime: None, tone: None }, Syllable { initial: Some(Bopomofo::ZH), medial: Some(Bopomofo::U), rime: None, tone: None }))
    } else if s == "juan"@ {
        Some((Syllable { initial: Some(Bopomofo::J), medial: Some(Bopomofo::IU), rime: Some(Bopomofo::AN), tone: None }, Syllable { initial: Some(Bopomofo::ZH), medial: Some(Bopomofo::U), rime: Some(Bopomofo::AN), tone: None }))
    } else {
        None
    }
}

/// Spellings particular to Hanyu Pinyin.
pub open spec fn hanyu_entry(s: Seq<char>) -> Option<(Syllable, Syllable)> {
    if s == "chi"@ {
        Some((Syllable { initial: Some(Bopomofo::CH), medial: None, rime: None, tone: None }, Syllable { initial: Some(Bopomofo::Q), medial: Some(Bopomofo::I), rime: None, tone: None }))
    } else if s == "shi"@ {
        Some((Syllable { initial: Some(Bopomofo::SH), medial: None, rime: None, tone: None }, Syllable { initial: Some(Bopomofo::X), medial: Some(Bopomofo::I), rime: None, tone: None }))
    } else if s == "ci"@ {
        Some((Syllable { initial: Some(Bopomofo::C), medial: None, rime: None, tone: None }, Syllable { initial: Some(Bopomofo::Q), medial: Some(Bopomofo::I), rime: None, tone: None }))
    } else if s == "si"@ {
        Some((Syllable { initial: Some(Bopomofo::S), medial: None, rime: None, tone: None }, Syllable { initial: Some(Bopomofo::X), medial: Some(Bopomofo::I), rime: None, tone: None }))
    } else {
        None
    }
}

/// Spellings particular to Tongyong (THL) Pinyin.
pub open spec fn thl_entry(s: Seq<char>) -> Option<(Syllable, Syllable)> {
    if s == "chi"@ {
        Some((Syllable { initial: Some(Bopomofo::Q), medial: Some(Bopomofo::I), rime: None, tone: None }, Syllable { initial: Some(Bopomofo::CH), medial: None, rime: None, tone: None }))
    } else if s == "shi"@ {
        Some((Syllable { initial: Some(Bopomofo::X), medial: Some(Bopomofo::I), rime: None, tone: None }, Syllable { initial: Some(Bopomofo::SH), medial: None, rime: None, tone: None }))
    } else if s == "ci"@ {
        Some((Syllable { initial: Some(Bopomofo::Q), medial: Some(Bopomofo::I), rime: None, tone: None }, Syllable { initial: Some(Bopomofo::C), medial: None, rime: None, tone: None }))
    } else if s == "si"@ {
        Some((Syllable { initial: Some(Bopomofo::X), medial: Some(Bopomofo::I), rime: None, tone: None }, Syllable { initial: Some(Bopomofo::S), medial: None, rime: None, tone: None }))
    } else {
        None
    }
}

/// Spellings particular to MPS2 Pinyin.
pub open spec fn mps2_entry(s: Seq<char>) -> Option<(Syllable, Syllable)> {
    if s == "chi"@ {
        Some((Syllable { initial: Some(Bopomofo::Q), medial: Some(Bopomofo::I), rime: None, tone: None }, Syllable { initial: Some(Bopomofo::CH), medial: None, rime: None, tone: None }))
    } else if s == "shi"@ {
        Some((Syllable { initial: Some(Bopomofo::X), medial: Some(Bopomofo::I), rime: None, tone: None }, Syllable { initial: Some(Bopomofo::SH), medial: None, rime: None, tone: None }))
    } else if s == "ci"@ {
        Some((Syllable { initial: Some(Bopomofo::Q), medial: Some(Bopomofo::I), rime: None, tone: None }, Syllable { initial: Some(Bopomofo::C), medial: None, rime: None, tone: None }))
    } else if s == "si"@ {
        Some((Syllable { initial: Some(Bopomofo::X), medial: Some(Bopomofo::I), rime: None, tone: None }, Syllable { initial: Some(Bopomofo::S), medial: None, rime: None, tone: None }))
    } else if s == "niu"@ {
        Some((Syllable { initial: Some(Bopomofo::N), medial: Some(Bopomofo::IU), rime: None, tone: None }, Syllable { initial: Some(Bopomofo::N), medial: Some(Bopomofo::I), rime: Some(Bopomofo::OU), tone: None }))
    } else if s == "liu"@ {
        Some((Syllable { initial: Some(Bopomofo::L), medial: Some(Bopomofo::IU), rime: None, tone: None }, Syllable { initial: Some(Bopomofo::L), medial: Some(Bopomofo::I), rime: Some(Bopomofo::OU), tone: None }))
    } else if s == "jiu"@ {
        Some((Syllable { initial: Some(Bopomofo::J), medial: Some(Bopomofo::IU), rime: None, tone: None }, Syllable { initial: Some(Bopomofo::J), medial: Some(Bopomofo::I), rime: Some(Bopomofo::OU), tone: None }))
    } else if s == "chiu"@ {
        Some((Syllable { initial: Some(Bopomofo::Q), medial: Some(Bopomofo::IU), rime: None, tone: None }, Syllable { initial: Some(Bopomofo::Q), medial: Some(Bopomofo::I), rime: Some(Bopomofo::OU), tone: None }))
    } else if s == "shiu"@ {
        Some((Syllable { initial: Some(Bopomofo::X), medial: Some(Bopomofo::IU), rime: None, tone: None }, Syllable { initial: Some(Bopomofo::X), medial: Some(Bopomofo::I), rime: Some(Bopomofo::OU), tone: None }))
    } else if s == "ju"@ {
        Some((Syllable { initial: Some(Bopomofo::ZH), medial: Some(Bopomofo::U), rime: None, tone: None }, Syllable { initial: Some(Bopomofo::J), medial: Some(Bopomofo::IU), rime: None, tone: None }))
    } else if s == "juan"@ {
        Some((Syllable { initial: Some(Bopomofo::ZH), medial: Some(Bopomofo::U), rime: Some(Bopomofo::AN), tone: None }, Syllable { initial: Some(Bopomofo::J), medial: Some(Bopomofo::IU), rime: Some(Bopomofo::AN), tone: None }))
    } else if s == "juen"@ {
        Some((Syllable { initial: Some(Bopomofo::ZH), medial: Some(Bopomofo::U), rime: Some(Bopomofo::EN), tone: None }, Syllable { initial: Some(Bopomofo::J), medial: Some(Bopomofo::IU), rime: Some(Bopomofo::EN), tone: None }))
    } else if s == "tzu"@ {
        Some((Syllable { initial: Some(Bopomofo::Z), medial: Some(Bopomofo::U), rime: None, tone: None }, Syllable { initial: Some(Bopomofo::Z), medial: None, rime: None, tone: None }))
    } else {
        None
    }
}

/// The initial that begins the spelling, taking the longest spelling of an
/// initial, with its length in letters.
pub open spec fn initial_prefix(s: Seq<char>) -> Option<(Bopomofo, int)> {
    if is_prefix("tz"@, s) {
        Some((Bopomofo::Z, "tz"@.len() as int))
    } else if is_prefix("b"@, s) {
        Some((Bopomofo::B, "b"@.len() as int))
    } else if is_prefix("p"@, s) {
        Some((Bopomofo::P, "p"@.len() as int))
    } else if is_prefix("m"@, s) {
        Some((Bopomofo::M, "m"@.len() as int))
    } else if is_prefix("f"@, s) {
        Some((Bopomofo::F, "f"@.len() as int))
    } else if is_prefix("d"@, s) {
        Some((Bopomofo::D, "d"@.len() as int))
    } else if is_prefix("ts"@, s) {
        Some((Bopomofo::C, "ts"@.len() as int))
    } else if is_prefix("t"@, s) {
        Some((Bopomofo::T, "t"@.len() as int))
    } else if is_prefix("n"@, s) {
        Some((Bopomofo::N, "n"@.len() as int))
    } else if is_prefix("l"@, s) {
        Some((Bopomofo::L, "l"@.len() as int))
    } else if is_prefix("g"@, s) {
        Some((Bopomofo::G, "g"@.len() as int))
    } else if is_prefix("k"@, s) {
        Some((Bopomofo::K, "k"@.len() as int))
    } else if is_prefix("hs"@, s) {
        Some((Bopomofo::X, "hs"@.len() as int))
    } else if is_prefix("h"@, s) {
        Some((Bopomofo::H, "h"@.len() as int))
    } else if is_prefix("jh"@, s) {
        Some((Bopomofo::ZH, "jh"@.len() as int))
    } else if is_prefix("j"@, s) {
        Some((Bopomofo::J, "j"@.len() as int))
    } else if is_prefix("q"@, s) {
        Some((Bopomofo::Q, "q"@.len() as int))
    } else if is_prefix("x"@, s) {
        Some((Bopomofo::X, "x"@.len() as int))
    } else if is_prefix("zh"@, s) {
        Some((Bopomofo::ZH, "zh"@.len() as int))
    } else if is_prefix("ch"@, s) {
        Some((Bopomofo::CH, "ch"@.len() as int))
    } else if is_prefix("sh"@, s) {
        Some((Bopomofo::SH, "sh"@.len() as int))
    } else if is_prefix("r"@, s) {
        Some((Bopomofo::R, "r"@.len() as int))
    } else if is_prefix("z"@, s) {
        Some((Bopomofo::Z, "z"@.len() as int))
    } else if is_prefix("c"@, s) {
        Some((Bopomofo::C, "c"@.len() as int))
    } else if is_prefix("s"@, s) {
        Some((Bopomofo::S, "s"@.len() as int))
    } else {
        None
    }
}

/// The medial and rime that a whole spelling stands for.
pub open spec fn final_entry(s: Seq<char>) -> Option<(Option<Bopomofo>, Option<Bopomofo>)> {
    if s == "uang"@ {
        Some((Some(Bopomofo::U), Some(Bopomofo::ANG)))
    } else if s == "wang"@ {
        Some((Some(Bopomofo::U), Some(Bopomofo::ANG)))
    } else if s == "weng"@ {
        Some((Some(Bopomofo::U), Some(Bopomofo::ENG)))
    } else if s == "wong"@ {
        Some((Some(Bopomofo::U), Some(Bopomofo::ENG)))
    } else if s == "ying"@ {
        Some((Some(Bopomofo::I), Some(Bopomofo::ENG)))
    } else if s == "yung"@ {
        Some((Some(Bopomofo::IU), Some(Bopomofo::ENG)))
    } else if s == "yong"@ {
        Some((Some(Bopomofo::IU), Some(Bopomofo::ENG)))
    } else if s == "iung"@ {
        Some((Some(Bopomofo::IU), Some(Bopomofo::ENG)))
    } else if s == "iong"@ {
        Some((Some(Bopomofo::IU), Some(Bopomofo::ENG)))
    } else if s == "iang"@ {
        Some((Some(Bopomofo::I), Some(Bopomofo::ANG)))
    } else if s == "yang"@ {
        Some((Some(Bopomofo::I), Some(Bopomofo::ANG)))
    } else if s == "yuan"@ {
        Some((Some(Bopomofo::IU), Some(Bopomofo::AN)))
    } else if s == "iuan"@ {
        Some((Some(Bopomofo::IU), Some(Bopomofo::AN)))
    } else if s == "ing"@ {
        Some((Some(Bopomofo::I), Some(Bopomofo::ENG)))
    } else if s == "iao"@ {
        Some((Some(Bopomofo::I), Some(Bopomofo::AU)))
    } else if s == "iau"@ {
        Some((Some(Bopomofo::I), Some(Bopomofo::AU)))
    } else if s == "yao"@ {
        Some((Some(Bopomofo::I), Some(Bopomofo::AU)))
    } else if s == "yau"@ {
        Some((Some(Bopomofo::I), Some(Bopomofo::AU)))
    } else if s == "yun"@ {
        Some((Some(Bopomofo::IU), Some(Bopomofo::EN)))
    } else if s == "iun"@ {
        Some((Some(Bopomofo::IU), Some(Bopomofo::EN)))
    } else if s == "vn"@ {
        Some((Some(Bopomofo::IU), Some(Bopomofo::EN)))
    } else if s == "iou"@ {
        Some((Some(Bopomofo::I), Some(Bopomofo::OU)))
    } else if s == "iu"@ {
        Some((Some(Bopomofo::I), Some(Bopomofo::OU)))
    } else if s == "you"@ {
        Some((Some(Bopomofo::I), Some(Bopomofo::OU)))
    } else if s == "io"@ {
        Some((Some(Bopomofo::I), Some(Bopomofo::O)))
    } else if s == "yo"@ {
        Some((Some(Bopomofo::I), Some(Bopomofo::O)))
    } else if s == "ian"@ {
        Some((Some(Bopomofo::I), Some(Bopomofo::AN)))
    } else if s == "ien"@ {
        Some((Some(Bopomofo::I), Some(Bopomofo::AN)))
    } else if s == "yan"@ {
        Some((Some(Bopomofo::I), Some(Bopomofo::AN)))
    } else if s == "yen"@ {
        Some((Some(Bopomofo::I), Some(Bopomofo::AN)))
    } else if s == "yin"@ {
        Some((Some(Bopomofo::I), Some(Bopomofo::EN)))
    } else if s == "ang"@ {
        Some((None, Some(Bopomofo::ANG)))
    } else if s == "eng"@ {
        Some((None, Some(Bopomofo::ENG)))
    } else if s == "uei"@ {
        Some((Some(Bopomofo::U), Some(Bopomofo::EI)))
    } else if s == "ui"@ {
        Some((Some(Bopomofo::U), Some(Bopomofo::EI)))
    } else if s == "wei"@ {
        Some((Some(Bopomofo::U), Some(Bopomofo::EI)))
    } else if s == "uen"@ {
        Some((Some(Bopomofo::U), Some(Bopomofo::EN)))
    } else if s == "yueh"@ {
        Some((Some(Bopomofo::IU), Some(Bopomofo::EH)))
    } else if s == "yue"@ {
        Some((Some(Bopomofo::IU), Some(Bopomofo::EH)))
    } else if s == "iue"@ {
        Some((Some(Bopomofo::IU), Some(Bopomofo::EH)))
    } else if s == "ueh"@ {
        Some((Some(Bopomofo::IU), Some(Bopomofo::EH)))
    } else if s == "ue"@ {
        Some((Some(Bopomofo::IU), Some(Bopomofo::EH)))
    } else if s == "ve"@ {
        Some((Some(Bopomofo::IU), Some(Bopomofo::EH)))
    } else if s == "uai"@ {
        Some((Some(Bopomofo::U), Some(Bopomofo::AI)))
    } else if s == "wai"@ {
        Some((Some(Bopomofo::U), Some(Bopomofo::AI)))
    } else if s == "uan"@ {
        Some((Some(Bopomofo::U), Some(Bopomofo::AN)))
    } else if s == "wan"@ {
        Some((Some(Bopomofo::U), Some(Bopomofo::AN)))
    } else if s == "un"@ {
        Some((Some(Bopomofo::U), Some(Bopomofo::EN)))
    } else if s == "wen"@ {
        Some((Some(Bopomofo::U), Some(Bopomofo::EN)))
    } else if s == "wun"@ {
        Some((Some(Bopomofo::U), Some(Bopomofo::EN)))
    } else if s == "ung"@ {
        Some((Some(Bopomofo::U), Some(Bopomofo::ENG)))
    } else if s == "ong"@ {
        Some((Some(Bopomofo::U), Some(Bopomofo::ENG)))
    } else if s == "van"@ {
        Some((Some(Bopomofo::IU), Some(Bopomofo::AN)))
    } else if s == "er"@ {
        Some((None, Some(Bopomofo::ER)))
    } else if s == "ai"@ {
        Some((None, Some(Bopomofo::AI)))
    } else if s == "ei"@ {
        Some((None, Some(Bopomofo::EI)))
    } else if s == "ao"@ {
        Some((None, Some(Bopomofo::AU)))
    } else if s == "au"@ {
        Some((None, Some(Bopomofo::AU)))
    } else if s == "ou"@ {
        Some((None, Some(Bopomofo::OU)))
    } else if s == "an"@ {
        Some((None, Some(Bopomofo::AN)))
    } else if s == "en"@ {
        Some((None, Some(Bopomofo::EN)))
    } else if s == "yi"@ {
        Some((None, Some(Bopomofo::I)))
    } else if s == "ia"@ {
        Some((Some(Bopomofo::I), Some(Bopomofo::A)))
    } else if s == "ya"@ {
        Some((Some(Bopomofo::I), Some(Bopomofo::A)))
    } else if s == "ieh"@ {
        Some((Some(Bopomofo::I), Some(Bopomofo::EH)))
    } else if s == "ie"@ {
        Some((Some(Bopomofo::I), Some(Bopomofo::EH)))
    } else if s == "yeh"@ {
        Some((Some(Bopomofo::I), Some(Bopomofo::EH)))
    } else if s == "ye"@ {
        Some((Some(Bopomofo::I), Some(Bopomofo::EH)))
    } else if s == "in"@ {
        Some((Some(Bopomofo::I), Some(Bopomofo::EN)))
    } else if s == "wu"@ {
        Some((Some(Bopomofo::U), None))
    } else if s == "ua"@ {
        Some((Some(Bopomofo::U), Some(Bopomofo::A)))
    } else if s == "wa"@ {
        Some((Some(Bopomofo::U), Some(Bopomofo::A)))
    } else if s == "uo"@ {
        Some((Some(Bopomofo::U), Some(Bopomofo::O)))
    } else if s == "wo"@ {
        Some((Some(Bopomofo::U), Some(Bopomofo::O)))
    } else if s == "yu"@ {
        Some((Some(Bopomofo::IU), None))
    } else if s == "ve"@ {
        Some((Some(Bopomofo::IU), Some(Bopomofo::EH)))
    } else if s == "vn"@ {
        Some((Some(Bopomofo::IU), Some(Bopomofo::EN)))
    } else if s == "ih"@ {
        Some((None, None))
    } else if s == "a"@ {
        Some((None, Some(Bopomofo::A)))
    } else if s == "o"@ {
        Some((None, Some(Bopomofo::O)))
    } else if s == "eh"@ {
        Some((None, Some(Bopomofo::EH)))
    } else if s == "e"@ {
        Some((None, Some(Bopomofo::E)))
    } else if s == "v"@ {
        Some((Some(Bopomofo::IU), None))
    } else if s == "i"@ {
        Some((Some(Bopomofo::I), None))
    } else if s == "u"@ {
        Some((Some(Bopomofo::U), None))
    } else if s == "E"@ {
        Some((None, Some(Bopomofo::EH)))
    } else if s == "n"@ {
        Some((None, Some(Bopomofo::EN)))
    } else if s == "ng"@ {
        Some((None, Some(Bopomofo::ENG)))
    } else if s == "r"@ {
        Some((None, None))
    } else if s == "z"@ {
        Some((None, None))
    } else {
        None
    }
}

fn find_common(s: &str) -> (r: Option<(Syllable, Syllable)>)
    ensures
        r == common_entry(s@),
{
    if str_eq(s, "tzu") {
        return Some((Syllable { initial: Some(Bopomofo::Z), medial: None, rime: None, tone: None }, Syllable { initial: Some(Bopomofo::Z), medial: Some(Bopomofo::U), rime: None, tone: None }));
    }
    if str_eq(s, "ssu") {
        return Some((Syllable { initial: Some(Bopomofo::S), medial: None, rime: None, tone: None }, Syllable { initial: Some(Bopomofo::S), medial: Some(Bopomofo::U), rime: None, tone: None }));
    }
    if str_eq(s, "szu") {
        return Some((Syllable { initial: Some(Bopomofo::S), medial: None, rime: None, tone: None }, Syllable { initial: Some(Bopomofo::S), medial: Some(Bopomofo::U), rime: None, tone: None }));
    }
    if str_eq(s, "e") {
        return Some((Syllable { initial: None, medial: None, rime: Some(Bopomofo::E), tone: None }, Syllable { initial: None, medial: None, rime: Some(Bopomofo::EH), tone: None }));
    }
    if str_eq(s, "ch") {
        return Some((Syllable { initial: Some(Bopomofo::CH), medial: None, rime: None, tone: None }, Syllable { initial: Some(Bopomofo::Q), medial: None, rime: None, tone: None }));
    }
    if str_eq(s, "sh") {
        return Some((Syllable { initial: Some(Bopomofo::SH), medial: None, rime: None, tone: None }, Syllable { initial: Some(Bopomofo::X), medial: None, rime: None, tone: None }));
    }
    if str_eq(s, "c") {
        return Some((Syllable { initial: Some(Bopomofo::C), medial: None, rime: None, tone: None }, Syllable { initial: Some(Bopomofo::Q), medial: None, rime: None, tone: None }));
    }
    if str_eq(s, "s") {
        return Some((Syllable { initial: Some(Bopomofo::S), medial: None, rime: None, tone: None }, Syllable { initial: Some(Bopomofo::X), medial: None, rime: None, tone: None }));
    }
    if str_eq(s, "nu") {
        return Some((Syllable { initial: Some(Bopomofo::N), medial: Some(Bopomofo::U), rime: None, tone: None }, Syllable { initial: Some(Bopomofo::N), medial: Some(Bopomofo::IU), rime: None, tone: None }));
    }
    if str_eq(s, "lu") {
        return Some((Syllable { initial: Some(Bopomofo::L), medial: Some(Bopomofo::U), rime: None, tone: None }, Syllable { initial: Some(Bopomofo::L), medial: Some(Bopomofo::IU), rime: None, tone: None }));
    }
    if str_eq(s, "luan") {
        return Some((Syllable { initial: Some(Bopomofo::L), medial: Some(Bopomofo::U), rime: Some(Bopomofo::AN), tone: None }, Syllable { initial: Some(Bopomofo::L), medial: Some(Bopomofo::IU), rime: Some(Bopomofo::AN), tone: None }));
    }
    if str_eq(s, "niu") {
        return Some((Syllable { initial: Some(Bopomofo::N), medial: Some(Bopomofo::I), rime: Some(Bopomofo::OU), tone: None }, Syllable { initial: Some(Bopomofo::N), medial: Some(Bopomofo::IU), rime: None, tone: None }));
    }
    if str_eq(s, "liu") {
        return Some((Syllable { initial: Some(Bopomofo::L), medial: Some(Bopomofo::I), rime: Some(Bopomofo::OU), tone: None }, Syllable { initial: Some(Bopomofo::L), medial: Some(Bopomofo::IU), rime: None, tone: None }));
    }
    if str_eq(s, "jiu") {
        return Some((Syllable { initial: Some(Bopomofo::J), medial: Some(Bopomofo::I), rime: Some(Bopomofo::OU), tone: None }, Syllable { initial: Some(Bopomofo::J), medial: Some(Bopomofo::IU), rime: None, tone: None }));
    }
    if str_eq(s, "chiu") {
        return Some((Syllable { initial: Some(Bopomofo::Q), medial: Some(Bopomofo::I), rime: Some(Bopomofo::OU), tone: None }, Syllable { initial: Some(Bopomofo::Q), medial: Some(Bopomofo::IU), rime: None, tone: None }));
    }
    if str_eq(s, "shiu") {
        return Some((Syllable { initial: Some(Bopomofo::X), medial: Some(Bopomofo::I), rime: Some(Bopomofo::OU), tone: None }, Syllable { initial: Some(Bopomofo::X), medial: Some(Bopomofo::IU), rime: None, tone: None }));
    }
    if str_eq(s, "ju") {
        return Some((Syllable { initial: Some(Bopomofo::J), medial: Some(Bopomofo::IU), rime: None, tone: None }, Syllable { initial: Some(Bopomofo::ZH), medial: Some(Bopomofo::U), rime: None, tone: None }));
    }
    if str_eq(s, "juan") {
        return Some((Syllable { initial: Some(Bopomofo::J), medial: Some(Bopomofo::IU), rime: Some(Bopomofo::AN), tone: None }, Syllable { initial: Some(Bopomofo::ZH), medial: Some(Bopomofo::U), rime: Some(Bopomofo::AN), tone: None }));
    }
    None
}

fn find_hanyu(s: &str) -> (r: Option<(Syllable, Syllable)>)
    ensures
        r == hanyu_entry(s@),
{
    if str_eq(s, "chi") {
        return Some((Syllable { initial: Some(Bopomofo::CH), medial: None, rime: None, tone: None }, Syllable { initial: Some(Bopomofo::Q), medial: Some(Bopomofo::I), rime: None, tone: None }));
    }
    if str_eq(s, "shi") {
        return Some((Syllable { initial: Some(Bopomofo::SH), medial: None, rime: None, tone: None }, Syllable { initial: Some(Bopomofo::X), medial: Some(Bopomofo::I), rime: None, tone: None }));
    }
    if str_eq(s, "ci") {
        return Some((Syllable { initial: Some(Bopomofo::C), medial: None, rime: None, tone: None }, Syllable { initial: Some(Bopomofo::Q), medial: Some(Bopomofo::I), rime: None, tone: None }));
    }
    if str_eq(s, "si") {
        return Some((Syllable { initial: Some(Bopomofo::S), medial: None, rime: None, tone: None }, Syllable { initial: Some(Bopomofo::X), medial: Some(Bopomofo::I), rime: None, tone: None }));
    }
    None
}

fn find_thl(s: &str) -> (r: Option<(Syllable, Syllable)>)
    ensures
        r == thl_entry(s@),
{
    if str_eq(s, "chi") {
        return Some((Syllable { initial: Some(Bopomofo::Q), medial: Some(Bopomofo::I), rime: None, tone: None }, Syllable { initial: Some(Bopomofo::CH), medial: None, rime: None, tone: None }));
    }
    if str_eq(s, "shi") {
        return Some((Syllable { initial: Some(Bopomofo::X), medial: Some(Bopomofo::I), rime: None, tone: None }, Syllable { initial: Some(Bopomofo::SH), medial: None, rime: None, tone: None }));
    }
    if str_eq(s, "ci") {
        return Some((Syllable { initial: Some(Bopomofo::Q), medial: Some(Bopomofo::I), rime: None, tone: None }, Syllable { initial: Some(Bopomofo::C), medial: None, rime: None, tone: None }));
    }
    if str_eq(s, "si") {
        return Some((Syllable { initial: Some(Bopomofo::X), medial: Some(Bopomofo::I), rime: None, tone: None }, Syllable { initial: Some(Bopomofo::S), medial: None, rime: None, tone: None }));
    }
    None
}

fn find_mps2(s: &str) -> (r: Option<(Syllable, Syllable)>)
    ensures
        r == mps2_entry(s@),
{
    if str_eq(s, "chi") {
        return Some((Syllable { initial: Some(Bopomofo::Q), medial: Some(Bopomofo::I), rime: None, tone: None }, Syllable { initial: Some(Bopomofo::CH), medial: None, rime: None, tone: None }));
    }
    if str_eq(s, "shi") {
        return Some((Syllable { initial: Some(Bopomofo::X), medial: Some(Bopomofo::I), rime: None, tone: None }, Syllable { initial: Some(Bopomofo::SH), medial: None, rime: None, tone: None }));
    }
    if str_eq(s, "ci") {
        return Some((Syllable { initial: Some(Bopomofo::Q), medial: Some(Bopomofo::I), rime: None, tone: None }, Syllable { initial: Some(Bopomofo::C), medial: None, rime: None, tone: None }));
    }
    if str_eq(s, "si") {
        return Some((Syllable { initial: Some(Bopomofo::X), medial: Some(Bopomofo::I), rime: None, tone: None }, Syllable { initial: Some(Bopomofo::S), medial: None, rime: None, tone: None }));
    }
    if str_eq(s, "niu") {
        return Some((Syllable { initial: Some(Bopomofo::N), medial: Some(Bopomofo::IU), rime: None, tone: None }, Syllable { initial: Some(Bopomofo::N), medial: Some(Bopomofo::I), rime: Some(Bopomofo::OU), tone: None }));
    }
    if str_eq(s, "liu") {
        return Some((Syllable { initial: Some(Bopomofo::L), medial: Some(Bopomofo::IU), rime: None, tone: None }, Syllable { initial: Some(Bopomofo::L), medial: Some(Bopomofo::I), rime: Some(Bopomofo::OU), tone: None }));
    }
    if str_eq(s, "jiu") {
        return Some((Syllable { initial: Some(Bopomofo::J), medial: Some(Bopomofo::IU), rime: None, tone: None }, Syllable { initial: Some(Bopomofo::J), medial: Some(Bopomofo::I), rime: Some(Bopomofo::OU), tone: None }));
    }
    if str_eq(s, "chiu") {
        return Some((Syllable { initial: Some(Bopomofo::Q), medial: Some(Bopomofo::IU), rime: None, tone: None }, Syllable { initial: Some(Bopomofo::Q), medial: Some(Bopomofo::I), rime: Some(Bopomofo::OU), tone: None }));
    }
    if str_eq(s, "shiu") {
        return Some((Syllable { initial: Some(Bopomofo::X), medial: Some(Bopomofo::IU), rime: None, tone: None }, Syllable { initial: Some(Bopomofo::X), medial: Some(Bopomofo::I), rime: Some(Bopomofo::OU), tone: None }));
    }
    if str_eq(s, "ju") {
        return Some((Syllable { initial: Some(Bopomofo::ZH), medial: Some(Bopomofo::U), rime: None, tone: None }, Syllable { initial: Some(Bopomofo::J), medial: Some(Bopomofo::IU), rime: None, tone: None }));
    }
    if str_eq(s, "juan") {
        return Some((Syllable { initial: Some(Bopomofo::ZH), medial: Some(Bopomofo::U), rime: Some(Bopomofo::AN), tone: None }, Syllable { initial: Some(Bopomofo::J), medial: Some(Bopomofo::IU), rime: Some(Bopomofo::AN), tone: None }));
    }
    if str_eq(s, "juen") {
        return Some((Syllable { initial: Some(Bopomofo::ZH), medial: Some(Bopomofo::U), rime: Some(Bopomofo::EN), tone: None }, Syllable { initial: Some(Bopomofo::J), medial: Some(Bopomofo::IU), rime: Some(Bopomofo::EN), tone: None }));
    }
    if str_eq(s, "tzu") {
        return Some((Syllable { initial: Some(Bopomofo::Z), medial: Some(Bopomofo::U), rime: None, tone: None }, Syllable { initial: Some(Bopomofo::Z), medial: None, rime: None, tone: None }));
    }
    None
}

fn find_initial(s: &str) -> (r: Option<(Bopomofo, usize)>)
    ensures
        match initial_prefix(s@) {
            None => r is None,
            Some((b, l)) => r == Some((b, l as usize)) && 0 <= l <= s@.len(),
        },
{
    if str_starts_with(s, "tz") {
        return Some((Bopomofo::Z, "tz".unicode_len()));
    }
    if str_starts_with(s, "b") {
        return Some((Bopomofo::B, "b".unicode_len()));
    }
    if str_starts_with(s, "p") {
        return Some((Bopomofo::P, "p".unicode_len()));
    }
    if str_starts_with(s, "m") {
        return Some((Bopomofo::M, "m".unicode_len()));
    }
    if str_starts_with(s, "f") {
        return Some((Bopomofo::F, "f".unicode_len()));
    }
    if str_starts_with(s, "d") {
        return Some((Bopomofo::D, "d".unicode_len()));
    }
    if str_starts_with(s, "ts") {
        return Some((Bopomofo::C, "ts".unicode_len()));
    }
    if str_starts_with(s, "t") {
        return Some((Bopomofo::T, "t".unicode_len()));
    }
    if str_starts_with(s, "n") {
        return Some((Bopomofo::N, "n".unicode_len()));
    }
    if str_starts_with(s, "l") {
        return Some((Bopomofo::L, "l".unicode_len()));
    }
    if str_starts_with(s, "g") {
        return Some((Bopomofo::G, "g".unicode_len()));
    }
    if str_starts_with(s, "k") {
        return Some((Bopomofo::K, "k".unicode_len()));
    }
    if str_starts_with(s, "hs") {
        return Some((Bopomofo::X, "hs".unicode_len()));
    }
    if str_starts_with(s, "h") {
        return Some((Bopomofo::H, "h".unicode_len()));
    }
    if str_starts_with(s, "jh") {
        return Some((Bopomofo::ZH, "jh".unicode_len()));
    }
    if str_starts_with(s, "j") {
        return Some((Bopomofo::J, "j".unicode_len()));
    }
    if str_starts_with(s, "q") {
        return Some((Bopomofo::Q, "q".unicode_len()));
    }
    if str_starts_with(s, "x") {
        return Some((Bopomofo::X, "x".unicode_len()));
    }
    if str_starts_with(s, "zh") {
        return Some((Bopomofo::ZH, "zh".unicode_len()));
    }
    if str_starts_with(s, "ch") {
        return Some((Bopomofo::CH, "ch".unicode_len()));
    }
    if str_starts_with(s, "sh") {
        return Some((Bopomofo::SH, "sh".unicode_len()));
    }
    if str_starts_with(s, "r") {
        return Some((Bopomofo::R, "r".unicode_len()));
    }
    if str_starts_with(s, "z") {
        return Some((Bopomofo::Z, "z".unicode_len()));
    }
    if str_starts_with(s, "c") {
        return Some((Bopomofo::C, "c".unicode_len()));
    }
    if str_starts_with(s, "s") {
        return Some((Bopomofo::S, "s".unicode_len()));
    }
    None
}

fn find_final(s: &str) -> (r: Option<(Option<Bopomofo>, Option<Bopomofo>)>)
    ensures
        r == final_entry(s@),
{
    if str_eq(s, "uang") {
        return Some((Some(Bopomofo::U), Some(Bopomofo::ANG)));
    }
    if str_eq(s, "wang") {
        return Some((Some(Bopomofo::U), Some(Bopomofo::ANG)));
    }
    if str_eq(s, "weng") {
        return Some((Some(Bopomofo::U), Some(Bopomofo::ENG)));
    }
    if str_eq(s, "wong") {
        return Some((Some(Bopomofo::U), Some(Bopomofo::ENG)));
    }
    if str_eq(s, "ying") {
        return Some((Some(Bopomofo::I), Some(Bopomofo::ENG)));
    }
    if str_eq(s, "yung") {
        return Some((Some(Bopomofo::IU), Some(Bopomofo::ENG)));
    }
    if str_eq(s, "yong") {
        return Some((Some(Bopomofo::IU), Some(Bopomofo::ENG)));
    }
    if str_eq(s, "iung") {
        return Some((Some(Bopomofo::IU), Some(Bopomofo::ENG)));
    }
    if str_eq(s, "iong") {
        return Some((Some(Bopomofo::IU), Some(Bopomofo::ENG)));
    }
    if str_eq(s, "iang") {
        return Some((Some(Bopomofo::I), Some(Bopomofo::ANG)));
    }
    if str_eq(s, "yang") {
        return Some((Some(Bopomofo::I), Some(Bopomofo::ANG)));
    }
    if str_eq(s, "yuan") {
        return Some((Some(Bopomofo::IU), Some(Bopomofo::AN)));
    }
    if str_eq(s, "iuan") {
        return Some((Some(Bopomofo::IU), Some(Bopomofo::AN)));
    }
    if str_eq(s, "ing") {
        return Some((Some(Bopomofo::I), Some(Bopomofo::ENG)));
    }
    if str_eq(s, "iao") {
        return Some((Some(Bopomofo::I), Some(Bopomofo::AU)));
    }
    if str_eq(s, "iau") {
        return Some((Some(Bopomofo::I), Some(Bopomofo::AU)));
    }
    if str_eq(s, "yao") {
        return Some((Some(Bopomofo::I), Some(Bopomofo::AU)));
    }
    if str_eq(s, "yau") {
        return Some((Some(Bopomofo::I), Some(Bopomofo::AU)));
    }
    if str_eq(s, "yun") {
        return Some((Some(Bopomofo::IU), Some(Bopomofo::EN)));
    }
    if str_eq(s, "iun") {
        return Some((Some(Bopomofo::IU), Some(Bopomofo::EN)));
    }
    if str_eq(s, "vn") {
        return Some((Some(Bopomofo::IU), Some(Bopomofo::EN)));
    }
    if str_eq(s, "iou") {
        return Some((Some(Bopomofo::I), Some(Bopomofo::OU)));
    }
    if str_eq(s, "iu") {
        return Some((Some(Bopomofo::I), Some(Bopomofo::OU)));
    }
    if str_eq(s, "you") {
        return Some((Some(Bopomofo::I), Some(Bopomofo::OU)));
    }
    if str_eq(s, "io") {
        return Some((Some(Bopomofo::I), Some(Bopomofo::O)));
    }
    if str_eq(s, "yo") {
        return Some((Some(Bopomofo::I), Some(Bopomofo::O)));
    }
    if str_eq(s, "ian") {
        return Some((Some(Bopomofo::I), Some(Bopomofo::AN)));
    }
    if str_eq(s, "ien") {
        return Some((Some(Bopomofo::I), Some(Bopomofo::AN)));
    }
    if str_eq(s, "yan") {
        return Some((Some(Bopomofo::I), Some(Bopomofo::AN)));
    }
    if str_eq(s, "yen") {
        return Some((Some(Bopomofo::I), Some(Bopomofo::AN)));
    }
    if str_eq(s, "yin") {
        return Some((Some(Bopomofo::I), Some(Bopomofo::EN)));
    }
    if str_eq(s, "ang") {
        return Some((None, Some(Bopomofo::ANG)));
    }
    if str_eq(s, "eng") {
        return Some((None, Some(Bopomofo::ENG)));
    }
    if str_eq(s, "uei") {
        return Some((Some(Bopomofo::U), Some(Bopomofo::EI)));
    }
    if str_eq(s, "ui") {
        return Some((Some(Bopomofo::U), Some(Bopomofo::EI)));
    }
    if str_eq(s, "wei") {
        return Some((Some(Bopomofo::U), Some(Bopomofo::EI)));
    }
    if str_eq(s, "uen") {
        return Some((Some(Bopomofo::U), Some(Bopomofo::EN)));
    }
    if str_eq(s, "yueh") {
        return Some((Some(Bopomofo::IU), Some(Bopomofo::EH)));
    }
    if str_eq(s, "yue") {
        return Some((Some(Bopomofo::IU), Some(Bopomofo::EH)));
    }
    if str_eq(s, "iue") {
        return Some((Some(Bopomofo::IU), Some(Bopomofo::EH)));
    }
    if str_eq(s, "ueh") {
        return Some((Some(Bopomofo::IU), Some(Bopomofo::EH)));
    }
    if str_eq(s, "ue") {
        return Some((Some(Bopomofo::IU), Some(Bopomofo::EH)));
    }
    if str_eq(s, "ve") {
        return Some((Some(Bopomofo::IU), Some(Bopomofo::EH)));
    }
    if str_eq(s, "uai") {
        return Some((Some(Bopomofo::U), Some(Bopomofo::AI)));
    }
    if str_eq(s, "wai") {
        return Some((Some(Bopomofo::U), Some(Bopomofo::AI)));
    }
    if str_eq(s, "uan") {
        return Some((Some(Bopomofo::U), Some(Bopomofo::AN)));
    }
    if str_eq(s, "wan") {
        return Some((Some(Bopomofo::U), Some(Bopomofo::AN)));
    }
    if str_eq(s, "un") {
        return Some((Some(Bopomofo::U), Some(Bopomofo::EN)));
    }
    if str_eq(s, "wen") {
        return Some((Some(Bopomofo::U), Some(Bopomofo::EN)));
    }
    if str_eq(s, "wun") {
        return Some((Some(Bopomofo::U), Some(Bopomofo::EN)));
    }
    if str_eq(s, "ung") {
        return Some((Some(Bopomofo::U), Some(Bopomofo::ENG)));
    }
    if str_eq(s, "ong") {
        return Some((Some(Bopomofo::U), Some(Bopomofo::ENG)));
    }
    if str_eq(s, "van") {
        return Some((Some(Bopomofo::IU), Some(Bopomofo::AN)));
    }
    if str_eq(s, "er") {
        return Some((None, Some(Bopomofo::ER)));
    }
    if str_eq(s, "ai") {
        return Some((None, Some(Bopomofo::AI)));
    }
    if str_eq(s, "ei") {
        return Some((None, Some(Bopomofo::EI)));
    }
    if str_eq(s, "ao") {
        return Some((None, Some(Bopomofo::AU)));
    }
    if str_eq(s, "au") {
        return Some((None, Some(Bopomofo::AU)));
    }
    if str_eq(s, "ou") {
        return Some((None, Some(Bopomofo::OU)));
    }
    if str_eq(s, "an") {
        return Some((None, Some(Bopomofo::AN)));
    }
    if str_eq(s, "en") {
        return Some((None, Some(Bopomofo::EN)));
    }
    if str_eq(s, "yi") {
        return Some((None, Some(Bopomofo::I)));
    }
    if str_eq(s, "ia") {
        return Some((Some(Bopomofo::I), Some(Bopomofo::A)));
    }
    if str_eq(s, "ya") {
        return Some((Some(Bopomofo::I), Some(Bopomofo::A)));
    }
    if str_eq(s, "ieh") {
        return Some((Some(Bopomofo::I), Some(Bopomofo::EH)));
    }
    if str_eq(s, "ie") {
        return Some((Some(Bopomofo::I), Some(Bopomofo::EH)));
    }
    if str_eq(s, "yeh") {
        return Some((Some(Bopomofo::I), Some(Bopomofo::EH)));
    }
    if str_eq(s, "ye") {
        return Some((Some(Bopomofo::I), Some(Bopomofo::EH)));
    }
    if str_eq(s, "in") {
        return Some((Some(Bopomofo::I), Some(Bopomofo::EN)));
    }
    if str_eq(s, "wu") {
        return Some((Some(Bopomofo::U), None));
    }
    if str_eq(s, "ua") {
        return Some((Some(Bopomofo::U), Some(Bopomofo::A)));
    }
    if str_eq(s, "wa") {
        return Some((Some(Bopomofo::U), Some(Bopomofo::A)));
    }
    if str_eq(s, "uo") {
        return Some((Some(Bopomofo::U), Some(Bopomofo::O)));
    }
    if str_eq(s, "wo") {
        return Some((Some(Bopomofo::U), Some(Bopomofo::O)));
    }
    if str_eq(s, "yu") {
        return Some((Some(Bopomofo::IU), None));
    }
    if str_eq(s, "ve") {
        return Some((Some(Bopomofo::IU), Some(Bopomofo::EH)));
    }
    if str_eq(s, "vn") {
        return Some((Some(Bopomofo::IU), Some(Bopomofo::EN)));
    }
    if str_eq(s, "ih") {
        return Some((None, None));
    }
    if str_eq(s, "a") {
        return Some((None, Some(Bopomofo::A)));
    }
    if str_eq(s, "o") {
        return Some((None, Some(Bopomofo::O)));
    }
    if str_eq(s, "eh") {
        return Some((None, Some(Bopomofo::EH)));
    }
    if str_eq(s, "e") {
        return Some((None, Some(Bopomofo::E)));
    }
    if str_eq(s, "v") {
        return Some((Some(Bopomofo::IU), None));
    }
    if str_eq(s, "i") {
        return Some((Some(Bopomofo::I), None));
    }
    if str_eq(s, "u") {
        return Some((Some(Bopomofo::U), None));
    }
    if str_eq(s, "E") {
        return Some((None, Some(Bopomofo::EH)));
    }
    if str_eq(s, "n") {
        return Some((None, Some(Bopomofo::EN)));
    }
    if str_eq(s, "ng") {
        return Some((None, Some(Bopomofo::ENG)));
    }
    if str_eq(s, "r") {
        return Some((None, None));
    }
    if str_eq(s, "z") {
        return Some((None, None));
    }
    None
}

/// A symbol put in the slot of its kind.
pub open spec fn placed(s: Syllable, b: Option<Bopomofo>) -> Syllable {
    match b {
        Some(x) => updated(s, x),
        None => s,
    }
}

/// The syllable of a spelling split into initial and final, after the
/// fix-ups: a rime ㄧ after ㄓㄔㄕㄖㄗㄘㄙ is dropped with the medial; ㄨ after
/// ㄐㄑㄒ with no rime or ㄢ ㄣ is ㄩ; ㄙㄕ and ㄘㄔ before ㄧ or ㄩ are ㄒ and ㄑ,
/// and ㄐ before anything else is ㄓ; ㄨ between ㄅㄆㄇㄈ and ㄥ or ㄛ is
/// dropped.
pub open spec fn fixed_syllable(
    initial: Option<Bopomofo>,
    medial: Option<Bopomofo>,
    rime: Option<Bopomofo>,
) -> Syllable {
    let (m1, r1) = if rime == Some(Bopomofo::I) && (initial == Some(Bopomofo::ZH) || initial
        == Some(Bopomofo::CH) || initial == Some(Bopomofo::SH) || initial == Some(Bopomofo::R)
        || initial == Some(Bopomofo::Z) || initial == Some(Bopomofo::C) || initial == Some(
        Bopomofo::S,
    )) {
        (None, None)
    } else {
        (medial, rime)
    };
    let m2 = if (initial == Some(Bopomofo::J) || initial == Some(Bopomofo::Q) || initial == Some(
        Bopomofo::X,
    )) && m1 == Some(Bopomofo::U) && (r1 == Some(Bopomofo::AN) || r1 == Some(Bopomofo::EN)
        || r1 is None) {
        Some(Bopomofo::IU)
    } else {
        m1
    };
    let i3 = if m2 == Some(Bopomofo::I) || m2 == Some(Bopomofo::IU) {
        if initial == Some(Bopomofo::S) || initial == Some(Bopomofo::SH) {
            Some(Bopomofo::X)
        } else if initial == Some(Bopomofo::C) || initial == Some(Bopomofo::CH) {
            Some(Bopomofo::Q)
        } else {
            initial
        }
    } else if initial == Some(Bopomofo::J) {
        Some(Bopomofo::ZH)
    } else {
        initial
    };
    let m4 = if (i3 == Some(Bopomofo::B) || i3 == Some(Bopomofo::P) || i3 == Some(Bopomofo::M)
        || i3 == Some(Bopomofo::F)) && m2 == Some(Bopomofo::U) && (r1 == Some(Bopomofo::ENG)
        || r1 == Some(Bopomofo::O)) {
        None
    } else {
        m2
    };
    placed(placed(placed(crate::syllable::empty_syllable(), i3), m4), r1)
}

pub open spec fn variant_entry(v: PinyinVariant, s: Seq<char>) -> Option<(Syllable, Syllable)> {
    match v {
        PinyinVariant::HanyuPinyin => hanyu_entry(s),
        PinyinVariant::ThlPinyin => thl_entry(s),
        PinyinVariant::Mps2Pinyin => mps2_entry(s),
    }
}

/// The primary and alternate syllables a spelling stands for, without tone;
/// none when it spells nothing.
pub open spec fn spelled(v: PinyinVariant, s: Seq<char>) -> Option<(Syllable, Syllable)> {
    if variant_entry(v, s) is Some {
        variant_entry(v, s)
    } else if common_entry(s) is Some {
        common_entry(s)
    } else {
        let ini = initial_prefix(s);
        let rest = match ini {
            Some((_, l)) => s.subrange(l, s.len() as int),
            None => s,
        };
        let fin = final_entry(rest);
        if ini is None && fin is None {
            None
        } else {
            let initial = match ini {
                Some((b, _)) => Some(b),
                None => None,
            };
            let (medial, rime) = match fin {
                Some(x) => x,
                None => (None, None),
            };
            let syl = fixed_syllable(initial, medial, rime);
            Some((syl, syl))
        }
    }
}

/// The tone a tone key gives; space and 1 are the unmarked first tone.
pub open spec fn pinyin_tone(c: KeyCode) -> Option<Bopomofo> {
    match c {
        KeyCode::N2 => Some(Bopomofo::TONE2),
        KeyCode::N3 => Some(Bopomofo::TONE3),
        KeyCode::N4 => Some(Bopomofo::TONE4),
        KeyCode::N5 => Some(Bopomofo::TONE5),
        _ => None,
    }
}

pub open spec fn is_tone_key(c: KeyCode) -> bool {
    c == KeyCode::Space || c == KeyCode::N1 || c == KeyCode::N2 || c == KeyCode::N3 || c
        == KeyCode::N4 || c == KeyCode::N5
}

/// The lowercase letter a key types.
pub open spec fn letter_of(c: KeyCode) -> Option<char> {
    match c {
        KeyCode::A => Some('a'),
        KeyCode::B => Some('b'),
        KeyCode::C => Some('c'),
        KeyCode::D => Some('d'),
        KeyCode::E => Some('e'),
        KeyCode::F => Some('f'),
        KeyCode::G => Some('g'),
        KeyCode::H => Some('h'),
        KeyCode::I => Some('i'),
        KeyCode::J => Some('j'),
        KeyCode::K => Some('k'),
        KeyCode::L => Some('l'),
        KeyCode::M => Some('m'),
        KeyCode::N => Some('n'),
        KeyCode::O => Some('o'),
        KeyCode::P => Some('p'),
        KeyCode::Q => Some('q'),
        KeyCode::R => Some('r'),
        KeyCode::S => Some('s'),
        KeyCode::T => Some('t'),
        KeyCode::U => Some('u'),
        KeyCode::V => Some('v'),
        KeyCode::W => Some('w'),
        KeyCode::X => Some('x'),
        KeyCode::Y => Some('y'),
        KeyCode::Z => Some('z'),
        _ => None,
    }
}

/// What a Pinyin editor holds, as plain values.
pub struct PinyinState {
    pub key_seq: Seq<char>,
    pub syllable: Syllable,
    pub syllable_alt: Syllable,
    pub variant: PinyinVariant,
}

/// One key press on a Pinyin editor: letters are buffered up to the
/// limit; a tone key turns the buffer into a syllable and its alternate,
/// both with the tone, and clears it; a buffer that spells nothing is
/// dropped.
pub open spec fn pinyin_step(s: PinyinState, c: KeyCode) -> (PinyinState, KeyBehavior) {
    if !is_tone_key(c) {
        if s.key_seq.len() >= MAX_PINYIN_LEN {
            (s, KeyBehavior::NoWord)
        } else {
            match letter_of(c) {
                Some(ch) => (PinyinState { key_seq: s.key_seq.push(ch), ..s }, KeyBehavior::Absorb),
                None => (s, KeyBehavior::KeyError),
            }
        }
    } else {
        match spelled(s.variant, s.key_seq) {
            Some((a, b)) => (
                PinyinState {
                    key_seq: Seq::empty(),
                    syllable: Syllable { tone: pinyin_tone(c), ..a },
                    syllable_alt: Syllable { tone: pinyin_tone(c), ..b },
                    ..s
                },
                KeyBehavior::Commit,
            ),
            None => (PinyinState { key_seq: Seq::empty(), ..s }, KeyBehavior::Absorb),
        }
    }
}

/// Types the Latin spelling of a syllable and turns it into bopomofo on a
/// tone key.
#[derive(Debug)]
pub struct Pinyin {
    pub key_seq: String,
    pub syllable: Syllable,
    pub syllable_alt: Syllable,
    pub variant: PinyinVariant,
}

impl Pinyin {
    pub open spec fn state(&self) -> PinyinState {
        PinyinState {
            key_seq: self.key_seq@,
            syllable: self.syllable,
            syllable_alt: self.syllable_alt,
            variant: self.variant,
        }
    }

    pub open spec fn wf(&self) -> bool {
        self.syllable.wf() && self.syllable_alt.wf() && self.key_seq@.len() <= MAX_PINYIN_LEN
    }

    pub fn new() -> (r: Pinyin)
        ensures
            r.wf(),
            r.variant == PinyinVariant::HanyuPinyin,
            r.key_seq@.len() == 0,
            r.syllable.spec_is_empty(),
            r.syllable_alt.spec_is_empty(),
    {
        Pinyin::hanyu()
    }

    pub fn hanyu() -> (r: Pinyin)
        ensures
            r.wf(),
            r.variant == PinyinVariant::HanyuPinyin,
            r.key_seq@.len() == 0,
            r.syllable.spec_is_empty(),
            r.syllable_alt.spec_is_empty(),
    {
        Pinyin {
            key_seq: String::new(),
            syllable: Syllable::new(),
            syllable_alt: Syllable::new(),
            variant: PinyinVariant::HanyuPinyin,
        }
    }

    pub fn thl() -> (r: Pinyin)
        ensures
            r.wf(),
            r.variant == PinyinVariant::ThlPinyin,
            r.key_seq@.len() == 0,
            r.syllable.spec_is_empty(),
            r.syllable_alt.spec_is_empty(),
    {
        Pinyin {
            key_seq: String::new(),
            syllable: Syllable::new(),
            syllable_alt: Syllable::new(),
            variant: PinyinVariant::ThlPinyin,
        }
    }

    pub fn mps2() -> (r: Pinyin)
        ensures
            r.wf(),
            r.variant == PinyinVariant::Mps2Pinyin,
            r.key_seq@.len() == 0,
            r.syllable.spec_is_empty(),
            r.syllable_alt.spec_is_empty(),
    {
        Pinyin {
            key_seq: String::new(),
            syllable: Syllable::new(),
            syllable_alt: Syllable::new(),
            variant: PinyinVariant::Mps2Pinyin,
        }
    }

    /// The alternate reading of the last syllable.
    pub fn alt(&self) -> (r: Syllable)
        ensures
            r == self.syllable_alt,
    {
        self.syllable_alt
    }

    /// The Latin letters typed so far.
    pub fn key_seq(&self) -> (r: &String)
        ensures
            r@ == self.key_seq@,
    {
        &self.key_seq
    }

    fn lookup(&self) -> (r: Option<(Syllable, Syllable)>)
        ensures
            r == spelled(self.variant, self.key_seq@),
    {
        let s = self.key_seq.as_str();
        let v = match self.variant {
            PinyinVariant::HanyuPinyin => find_hanyu(s),
            PinyinVariant::ThlPinyin => find_thl(s),
            PinyinVariant::Mps2Pinyin => find_mps2(s),
        };
        if v.is_some() {
            return v;
        }
        let c = find_common(s);
        if c.is_some() {
            return c;
        }
        let ini = find_initial(s);
        let len = s.unicode_len();
        let rest = match ini {
            Some((_, l)) => s.substring_char(l, len),
            None => s,
        };
        let fin = find_final(rest);
        if ini.is_none() && fin.is_none() {
            return None;
        }
        let initial = match ini {
            Some((b, _)) => Some(b),
            None => None,
        };
        let (medial, rime) = match fin {
            Some(x) => x,
            None => (None, None),
        };
        let syl = fix_syllable(initial, medial, rime);
        Some((syl, syl))
    }

    /// Handles one key: letters are buffered; a tone key turns the buffer
    /// into a syllable and its alternate, both with the tone, and clears it.
    pub fn key_press(&mut self, key: KeyEvent) -> (r: KeyBehavior)
        requires
            old(self).wf(),
        ensures
            final(self).wf(),
            final(self).variant == old(self).variant,
            (final(self).state(), r) == pinyin_step(old(self).state(), key.code),
    {
        let tone_key = match key.code {
            KeyCode::Space | KeyCode::N1 | KeyCode::N2 | KeyCode::N3 | KeyCode::N4
            | KeyCode::N5 => true,
            _ => false,
        };
        if !tone_key {
            if self.key_seq.as_str().unicode_len() == MAX_PINYIN_LEN {
                return KeyBehavior::NoWord;
            }
            let letter: &str = match key.code {
                KeyCode::A => {
                    proof {
                        reveal_strlit("a");
                    }
                    "a"
                },
                KeyCode::B => {
                    proof {
                        reveal_strlit("b");
                    }
                    "b"
                },
                KeyCode::C => {
                    proof {
                        reveal_strlit("c");
                    }
                    "c"
                },
                KeyCode::D => {
                    proof {
                        reveal_strlit("d");
                    }
                    "d"
                },
                KeyCode::E => {
                    proof {
                        reveal_strlit("e");
                    }
                    "e"
                },
                KeyCode::F => {
                    proof {
                        reveal_strlit("f");
                    }
                    "f"
                },
                KeyCode::G => {
                    proof {
                        reveal_strlit("g");
                    }
                    "g"
                },
                KeyCode::H => {
                    proof {
                        reveal_strlit("h");
                    }
                    "h"
                },
                KeyCode::I => {
                    proof {
                        reveal_strlit("i");
                    }
                    "i"
                },
                KeyCode::J => {
                    proof {
                        reveal_strlit("j");
                    }
                    "j"
                },
                KeyCode::K => {
                    proof {
                        reveal_strlit("k");
                    }
                    "k"
                },
                KeyCode::L => {
                    proof {
                        reveal_strlit("l");
                    }
                    "l"
                },
                KeyCode::M => {
                    proof {
                        reveal_strlit("m");
                    }
                    "m"
                },
                KeyCode::N => {
                    proof {
                        reveal_strlit("n");
                    }
                    "n"
                },
                KeyCode::O => {
                    proof {
                        reveal_strlit("o");
                    }
                    "o"
                },
                KeyCode::P => {
                    proof {
                        reveal_strlit("p");
                    }
                    "p"
                },
                KeyCode::Q => {
                    proof {
                        reveal_strlit("q");
                    }
                    "q"
                },
                KeyCode::R => {
                    proof {
                        reveal_strlit("r");
                    }
                    "r"
                },
                KeyCode::S => {
                    proof {
                        reveal_strlit("s");
                    }
                    "s"
                },
                KeyCode::T => {
                    proof {
                        reveal_strlit("t");
                    }
                    "t"
                },
                KeyCode::U => {
                    proof {
                        reveal_strlit("u");
                    }
                    "u"
                },
                KeyCode::V => {
                    proof {
                        reveal_strlit("v");
                    }
                    "v"
                },
                KeyCode::W => {
                    proof {
                        reveal_strlit("w");
                    }
                    "w"
                },
                KeyCode::X => {
                    proof {
                        reveal_strlit("x");
                    }
                    "x"
                },
                KeyCode::Y => {
                    proof {
                        reveal_strlit("y");
                    }
                    "y"
                },
                KeyCode::Z => {
                    proof {
                        reveal_strlit("z");
                    }
                    "z"
                },
                _ => {
                    return KeyBehavior::KeyError;
                },
            };
            let ghost before = self.key_seq@;
            proof {
                assert(letter@ == seq![letter_of(key.code)->Some_0]);
            }
            self.key_seq.append(letter);
            proof {
                assert(self.key_seq@ =~= before.push(letter_of(key.code)->Some_0));
            }
            return KeyBehavior::Absorb;
        }
        let tone = match key.code {
            KeyCode::N2 => Some(Bopomofo::TONE2),
            KeyCode::N3 => Some(Bopomofo::TONE3),
            KeyCode::N4 => Some(Bopomofo::TONE4),
            KeyCode::N5 => Some(Bopomofo::TONE5),
            _ => None,
        };
        let found = self.lookup();
        self.key_seq = String::new();
        match found {
            Some((a, b)) => {
                proof {
                    lemma_spelled_wf(self.variant, old(self).key_seq@);
                }
                self.syllable = Syllable { tone, ..a };
                self.syllable_alt = Syllable { tone, ..b };
                KeyBehavior::Commit
            },
            None => KeyBehavior::Absorb,
        }
    }

    pub fn is_entering(&self) -> (r: bool)
        ensures
            r == (self.key_seq@.len() > 0),
    {
        self.key_seq.as_str().unicode_len() > 0
    }

    /// Clears the letters and both syllables.
    pub fn clear(&mut self)
        ensures
            final(self).wf(),
            final(self).variant == old(self).variant,
            final(self).key_seq@.len() == 0,
            final(self).syllable.spec_is_empty(),
            final(self).syllable_alt.spec_is_empty(),
    {
        self.key_seq = String::new();
        self.syllable = Syllable::new();
        self.syllable_alt = Syllable::new();
    }

    /// The last syllable, without changing it.
    pub fn observe(&self) -> (r: Syllable)
        ensures
            r == self.syllable,
    {
        self.syllable
    }
}

fn place(s: &mut Syllable, b: Option<Bopomofo>)
    requires
        old(s).wf(),
    ensures
        *final(s) == placed(*old(s), b),
        final(s).wf(),
{
    if let Some(x) = b {
        s.update(x);
    }
}

fn fix_syllable(
    initial: Option<Bopomofo>,
    medial: Option<Bopomofo>,
    rime: Option<Bopomofo>,
) -> (r: Syllable)
    ensures
        r == fixed_syllable(initial, medial, rime),
        r.wf(),
{
    let (m1, r1) = if rime == Some(Bopomofo::I) && (initial == Some(Bopomofo::ZH) || initial
        == Some(Bopomofo::CH) || initial == Some(Bopomofo::SH) || initial == Some(Bopomofo::R)
        || initial == Some(Bopomofo::Z) || initial == Some(Bopomofo::C) || initial == Some(
        Bopomofo::S,
    )) {
        (None, None)
    } else {
        (medial, rime)
    };
    let m2 = if (initial == Some(Bopomofo::J) || initial == Some(Bopomofo::Q) || initial == Some(
        Bopomofo::X,
    )) && m1 == Some(Bopomofo::U) && (r1 == Some(Bopomofo::AN) || r1 == Some(Bopomofo::EN)
        || r1.is_none()) {
        Some(Bopomofo::IU)
    } else {
        m1
    };
    let i3 = if m2 == Some(Bopomofo::I) || m2 == Some(Bopomofo::IU) {
        if initial == Some(Bopomofo::S) || initial == Some(Bopomofo::SH) {
            Some(Bopomofo::X)
        } else if initial == Some(Bopomofo::C) || initial == Some(Bopomofo::CH) {
            Some(Bopomofo::Q)
        } else {
            initial
        }
    } else if initial == Some(Bopomofo::J) {
        Some(Bopomofo::ZH)
    } else {
        initial
    };
    let m4 = if (i3 == Some(Bopomofo::B) || i3 == Some(Bopomofo::P) || i3 == Some(Bopomofo::M)
        || i3 == Some(Bopomofo::F)) && m2 == Some(Bopomofo::U) && (r1 == Some(Bopomofo::ENG)
        || r1 == Some(Bopomofo::O)) {
        None
    } else {
        m2
    };
    let mut s = Syllable::new();
    place(&mut s, i3);
    place(&mut s, m4);
    place(&mut s, r1);
    s
}

/// What a spelling stands for is made of well-formed syllables without tone.
pub proof fn lemma_spelled_wf(v: PinyinVariant, s: Seq<char>)
    ensures
        spelled(v, s) matches Some((a, b)) ==> a.wf() && b.wf() && a.tone is None && b.tone
            is None,
{
    if variant_entry(v, s) is None && common_entry(s) is None {
        let ini = initial_prefix(s);
        let rest = match ini {
            Some((_, l)) => s.subrange(l, s.len() as int),
            None => s,
        };
        let fin = final_entry(rest);
        let initial = match ini {
            Some((b, _)) => Some(b),
            None => None,
        };
        let (medial, rime) = match fin {
            Some(x) => x,
            None => (None, None),
        };
        lemma_fixed_wf(initial, medial, rime);
    }
}

pub proof fn lemma_fixed_wf(initial: Option<Bopomofo>, medial: Option<Bopomofo>, rime: Option<Bopomofo>)
    ensures
        fixed_syllable(initial, medial, rime).wf(),
{
}

} // verus!
