use vstd::prelude::*;

use crate::bopomofo::{kind_of, Bopomofo, BopomofoKind};
use crate::syllable::{encode, slots_wf, Syllable};

verus! {

/// Keyboard layouts a session can select.
#[derive(Clone, Copy, Debug, PartialEq, Eq, Structural)]
pub enum KeyboardLayoutCompat {
    Default,
    Hsu,
    Ibm,
    GinYieh,
    Et,
    Et26,
    Dvorak,
    DvorakHsu,
    DachenCp26,
    HanyuPinyin,
    ThlPinyin,
    Mps2Pinyin,
    Carpalx,
}

/// What a key press did to an editor.
#[derive(Clone, Copy, Debug, PartialEq, Eq, Structural)]
pub enum KeyBehavior {
    /// The key was not for the editor.
    Ignore,
    /// The key updated the syllable in progress.
    Absorb,
    /// The syllable is finished; read it, then clear the editor.
    Commit,
    /// The key is not valid in the current state.
    KeyError,
    /// The editor could not handle the key.
    Error,
    /// The key produced no syllable.
    NoWord,
    /// The key asks for the symbol table.
    OpenSymbolTable,
}

/// A four-slot phonetic buffer: initial, medial, rime and tone.
#[derive(Clone, Copy, Debug)]
pub struct KeyBuf(
    pub Option<Bopomofo>,
    pub Option<Bopomofo>,
    pub Option<Bopomofo>,
    pub Option<Bopomofo>,
);

impl KeyBuf {
    pub open spec fn as_syllable(&self) -> Syllable {
        Syllable { initial: self.0, medial: self.1, rime: self.2, tone: self.3 }
    }

    pub fn is_empty(&self) -> (r: bool)
        ensures
            r == self.as_syllable().spec_is_empty(),
    {
        self.0.is_none() && self.1.is_none() && self.2.is_none() && self.3.is_none()
    }

    /// The 16-bit code of the buffer's syllable.
    pub fn encode(&self) -> (r: u16)
        requires
            slots_wf(self.0, self.1, self.2, self.3),
        ensures
            r as int == encode(self.as_syllable()),
    {
        let s = Syllable { initial: self.0, medial: self.1, rime: self.2, tone: self.3 };
        s.to_u16()
    }

    /// A buffer from the 1-based position of each slot's symbol (0 for an
    /// empty slot).
    pub fn from_raw_parts(pho_inx: &[i32]) -> (r: KeyBuf)
        requires
            pho_inx@.len() >= 4,
            0 <= pho_inx@[0] <= 21,
            0 <= pho_inx@[1] <= 3,
            0 <= pho_inx@[2] <= 13,
            0 <= pho_inx@[3] <= 4,
        ensures
            r.as_syllable() == crate::syllable::decode(
                (pho_inx@[0] * 512 + pho_inx@[1] * 128 + pho_inx@[2] * 8 + pho_inx@[3]) as u16,
            ),
            slots_wf(r.0, r.1, r.2, r.3),
    {
        let code = (pho_inx[0] * 512 + pho_inx[1] * 128 + pho_inx[2] * 8 + pho_inx[3]) as u16;
        proof {
            let x = code as int;
            let (a, b, c, d) = (
                pho_inx@[0] as int,
                pho_inx@[1] as int,
                pho_inx@[2] as int,
                pho_inx@[3] as int,
            );
            assert(x / 512 == a && (x / 128) % 4 == b && (x / 8) % 16 == c && x % 8 == d) by (
            nonlinear_arith)
                requires
                    x == a * 512 + b * 128 + c * 8 + d,
                    0 <= a <= 21,
                    0 <= b <= 3,
                    0 <= c <= 13,
                    0 <= d <= 4,
            ;
        }
        match Syllable::from_u16(code) {
            Ok(s) => KeyBuf(s.initial, s.medial, s.rime, s.tone),
            Err(_) => KeyBuf(None, None, None, None),
        }
    }
}

/// Palatal fix-ups while typing: ㄐㄑㄒ before a rime without medial, or
/// before ㄨ, become ㄓㄔㄕ; ㄓㄔㄕ before ㄧ or ㄩ become ㄐㄑㄒ.
pub open spec fn palatal_fuzzy(s: Syllable, b: Bopomofo) -> Syllable {
    if b == Bopomofo::U || (kind_of(b) == BopomofoKind::Rime && s.medial is None) {
        match s.initial {
            Some(Bopomofo::J) => Syllable { initial: Some(Bopomofo::ZH), ..s },
            Some(Bopomofo::Q) => Syllable { initial: Some(Bopomofo::CH), ..s },
            Some(Bopomofo::X) => Syllable { initial: Some(Bopomofo::SH), ..s },
            _ => s,
        }
    } else if b == Bopomofo::I || b == Bopomofo::IU {
        match s.initial {
            Some(Bopomofo::ZH) => Syllable { initial: Some(Bopomofo::J), ..s },
            Some(Bopomofo::CH) => Syllable { initial: Some(Bopomofo::Q), ..s },
            Some(Bopomofo::SH) => Syllable { initial: Some(Bopomofo::X), ..s },
            _ => s,
        }
    } else {
        s
    }
}

pub fn apply_palatal_fuzzy(s: &mut Syllable, b: Bopomofo)
    requires
        old(s).wf(),
    ensures
        *final(s) == palatal_fuzzy(*old(s), b),
        final(s).wf(),
{
    if b == Bopomofo::U || (b.kind() == BopomofoKind::Rime && s.medial.is_none()) {
        match s.initial {
            Some(Bopomofo::J) => {
                s.initial = Some(Bopomofo::ZH);
            },
            Some(Bopomofo::Q) => {
                s.initial = Some(Bopomofo::CH);
            },
            Some(Bopomofo::X) => {
                s.initial = Some(Bopomofo::SH);
            },
            _ => {},
        }
    } else if b == Bopomofo::I || b == Bopomofo::IU {
        match s.initial {
            Some(Bopomofo::ZH) => {
                s.initial = Some(Bopomofo::J);
            },
            Some(Bopomofo::CH) => {
                s.initial = Some(Bopomofo::Q);
            },
            Some(Bopomofo::SH) => {
                s.initial = Some(Bopomofo::X);
            },
            _ => {},
        }
    }
}

/// Something other than a tone has been typed.
pub open spec fn has_phonetic(s: Syllable) -> bool {
    s.initial is Some || s.medial is Some || s.rime is Some
}

/// The syllable with the initial dropped and `rime` put in place.
pub open spec fn initial_to_rime(s: Syllable, rime: Bopomofo) -> Syllable {
    Syllable { initial: None, rime: Some(rime), ..s }
}

} // verus!
