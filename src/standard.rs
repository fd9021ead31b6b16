use vstd::prelude::*;

use crate::bopomofo::{kind_of, Bopomofo, BopomofoKind};
use crate::editor::KeyBehavior;
use crate::keymap::{KeyEvent, KeyIndex};
use crate::syllable::{updated, Syllable};

verus! {

/// The symbol printed on each key of the standard (Dachen) layout; the
/// space bar is the first tone.
pub open spec fn standard_symbol(k: KeyIndex) -> Option<Bopomofo> {
    match k {
        KeyIndex::K1 => Some(Bopomofo::B),
        KeyIndex::K2 => Some(Bopomofo::D),
        KeyIndex::K3 => Some(Bopomofo::TONE3),
        KeyIndex::K4 => Some(Bopomofo::TONE4),
        KeyIndex::K5 => Some(Bopomofo::ZH),
        KeyIndex::K6 => Some(Bopomofo::TONE2),
        KeyIndex::K7 => Some(Bopomofo::TONE5),
        KeyIndex::K8 => Some(Bopomofo::A),
        KeyIndex::K9 => Some(Bopomofo::AI),
        KeyIndex::K10 => Some(Bopomofo::AN),
        KeyIndex::K11 => Some(Bopomofo::ER),
        KeyIndex::K15 => Some(Bopomofo::P),
        KeyIndex::K16 => Some(Bopomofo::T),
        KeyIndex::K17 => Some(Bopomofo::G),
        KeyIndex::K18 => Some(Bopomofo::J),
        KeyIndex::K19 => Some(Bopomofo::CH),
        KeyIndex::K20 => Some(Bopomofo::Z),
        KeyIndex::K21 => Some(Bopomofo::I),
        KeyIndex::K22 => Some(Bopomofo::O),
        KeyIndex::K23 => Some(Bopomofo::EI),
        KeyIndex::K24 => Some(Bopomofo::EN),
        KeyIndex::K27 => Some(Bopomofo::M),
        KeyIndex::K28 => Some(Bopomofo::N),
        KeyIndex::K29 => Some(Bopomofo::K),
        KeyIndex::K30 => Some(Bopomofo::Q),
        KeyIndex::K31 => Some(Bopomofo::SH),
        KeyIndex::K32 => Some(Bopomofo::C),
        KeyIndex::K33 => Some(Bopomofo::U),
        KeyIndex::K34 => Some(Bopomofo::E),
        KeyIndex::K35 => Some(Bopomofo::AU),
        KeyIndex::K36 => Some(Bopomofo::ANG),
        KeyIndex::K38 => Some(Bopomofo::F),
        KeyIndex::K39 => Some(Bopomofo::L),
        KeyIndex::K40 => Some(Bopomofo::H),
        KeyIndex::K41 => Some(Bopomofo::X),
        KeyIndex::K42 => Some(Bopomofo::R),
        KeyIndex::K43 => Some(Bopomofo::S),
        KeyIndex::K44 => Some(Bopomofo::IU),
        KeyIndex::K45 => Some(Bopomofo::EH),
        KeyIndex::K46 => Some(Bopomofo::OU),
        KeyIndex::K47 => Some(Bopomofo::ENG),
        KeyIndex::K48 => Some(Bopomofo::TONE1),
        _ => None,
    }
}

/// One key press on the standard layout: the next syllable and the
/// behavior.
///
/// The backtick opens the symbol table. A tone key finishes a syllable that
/// has anything in it and is an error on an empty one; the space bar never
/// writes the unmarked first tone by itself. Any other symbol replaces the
/// symbol of its kind and drops a tone typed before it.
pub open spec fn standard_step(s: Syllable, k: KeyIndex) -> (Syllable, KeyBehavior) {
    if k == KeyIndex::K14 {
        (s, KeyBehavior::OpenSymbolTable)
    } else {
        match standard_symbol(k) {
            None => (s, KeyBehavior::KeyError),
            Some(b) => if kind_of(b) == BopomofoKind::Tone {
                if s.spec_is_empty() {
                    (s, KeyBehavior::KeyError)
                } else {
                    (updated(s, b), KeyBehavior::Commit)
                }
            } else {
                (updated(Syllable { tone: None, ..s }, b), KeyBehavior::Absorb)
            },
        }
    }
}

/// The standard keyboard layout, one symbol printed on each key.
#[derive(Clone, Copy, Debug)]
pub struct Standard {
    pub syllable: Syllable,
}

impl Standard {
    pub open spec fn wf(&self) -> bool {
        self.syllable.wf()
    }

    pub fn new() -> (r: Standard)
        ensures
            r.wf(),
            r.syllable.spec_is_empty(),
    {
        Standard { syllable: Syllable::new() }
    }

    /// An editor that holds the syllable whose slots have these 1-based
    /// positions.
    pub fn from_raw_parts(pho_inx: &[i32]) -> (r: Standard)
        requires
            pho_inx@.len() >= 4,
            0 <= pho_inx@[0] <= 21,
            0 <= pho_inx@[1] <= 3,
            0 <= pho_inx@[2] <= 13,
            0 <= pho_inx@[3] <= 4,
        ensures
            r.wf(),
            r.syllable == crate::syllable::decode(
                (pho_inx@[0] * 512 + pho_inx@[1] * 128 + pho_inx@[2] * 8 + pho_inx@[3]) as u16,
            ),
    {
        let b = crate::editor::KeyBuf::from_raw_parts(pho_inx);
        Standard { syllable: Syllable { initial: b.0, medial: b.1, rime: b.2, tone: b.3 } }
    }

    /// Handles one key; a finished syllable is reported by `Commit` and
    /// stays readable until `clear`.
    pub fn key_press(&mut self, key: KeyEvent) -> (r: KeyBehavior)
        requires
            old(self).wf(),
        ensures
            final(self).wf(),
            (final(self).syllable, r) == standard_step(old(self).syllable, key.index),
    {
        if key.index == KeyIndex::K14 {
            return KeyBehavior::OpenSymbolTable;
        }
        let bopomofo = match key.index {
            KeyIndex::K1 => Bopomofo::B,
            KeyIndex::K2 => Bopomofo::D,
            KeyIndex::K3 => Bopomofo::TONE3,
            KeyIndex::K4 => Bopomofo::TONE4,
            KeyIndex::K5 => Bopomofo::ZH,
            KeyIndex::K6 => Bopomofo::TONE2,
            KeyIndex::K7 => Bopomofo::TONE5,
            KeyIndex::K8 => Bopomofo::A,
            KeyIndex::K9 => Bopomofo::AI,
            KeyIndex::K10 => Bopomofo::AN,
            KeyIndex::K11 => Bopomofo::ER,
            KeyIndex::K15 => Bopomofo::P,
            KeyIndex::K16 => Bopomofo::T,
            KeyIndex::K17 => Bopomofo::G,
            KeyIndex::K18 => Bopomofo::J,
            KeyIndex::K19 => Bopomofo::CH,
            KeyIndex::K20 => Bopomofo::Z,
            KeyIndex::K21 => Bopomofo::I,
            KeyIndex::K22 => Bopomofo::O,
            KeyIndex::K23 => Bopomofo::EI,
            KeyIndex::K24 => Bopomofo::EN,
            KeyIndex::K27 => Bopomofo::M,
            KeyIndex::K28 => Bopomofo::N,
            KeyIndex::K29 => Bopomofo::K,
            KeyIndex::K30 => Bopomofo::Q,
            KeyIndex::K31 => Bopomofo::SH,
            KeyIndex::K32 => Bopomofo::C,
            KeyIndex::K33 => Bopomofo::U,
            KeyIndex::K34 => Bopomofo::E,
            KeyIndex::K35 => Bopomofo::AU,
            KeyIndex::K36 => Bopomofo::ANG,
            KeyIndex::K38 => Bopomofo::F,
            KeyIndex::K39 => Bopomofo::L,
            KeyIndex::K40 => Bopomofo::H,
            KeyIndex::K41 => Bopomofo::X,
            KeyIndex::K42 => Bopomofo::R,
            KeyIndex::K43 => Bopomofo::S,
            KeyIndex::K44 => Bopomofo::IU,
            KeyIndex::K45 => Bopomofo::EH,
            KeyIndex::K46 => Bopomofo::OU,
            KeyIndex::K47 => Bopomofo::ENG,
            KeyIndex::K48 => Bopomofo::TONE1,
            _ => {
                return KeyBehavior::KeyError;
            },
        };
        if bopomofo.kind() == BopomofoKind::Tone {
            if self.syllable.is_empty() {
                return KeyBehavior::KeyError;
            }
            self.syllable.update(bopomofo);
            KeyBehavior::Commit
        } else {
            self.syllable.tone = None;
            self.syllable.update(bopomofo);
            KeyBehavior::Absorb
        }
    }

    pub fn is_entering(&self) -> (r: bool)
        ensures
            r == !self.syllable.spec_is_empty(),
    {
        !self.syllable.is_empty()
    }

    /// Removes the last symbol in display order.
    pub fn pop(&mut self) -> (r: Option<Bopomofo>)
        requires
            old(self).wf(),
        ensures
            final(self).wf(),
            (final(self).syllable, r) == crate::syllable::popped(old(self).syllable),
    {
        self.syllable.pop()
    }

    pub fn clear(&mut self)
        ensures
            final(self).wf(),
            final(self).syllable.spec_is_empty(),
    {
        self.syllable.clear();
    }

    /// The syllable typed so far, without changing it.
    pub fn observe(&self) -> (r: Syllable)
        ensures
            r == self.syllable,
    {
        self.syllable
    }
}

} // verus!
