use vstd::prelude::*;

use crate::bopomofo::Bopomofo;
use crate::editor::KeyBehavior;
use crate::keymap::{KeyEvent, KeyIndex};
use crate::syllable::{updated, Syllable};

verus! {

/// Two symbols that share a key: an empty slot, or one that holds the
/// default, takes the alternate; any other takes the default.
pub open spec fn default_or_alt_of(
    source: Option<Bopomofo>,
    default: Bopomofo,
    alt: Bopomofo,
) -> Bopomofo {
    match source {
        None => alt,
        Some(src) => if src == default {
            alt
        } else {
            default
        },
    }
}

pub fn default_or_alt(source: Option<Bopomofo>, default: Bopomofo, alt: Bopomofo) -> (r: Bopomofo)
    ensures
        r == default_or_alt_of(source, default, alt),
{
    match source {
        None => alt,
        Some(src) => if src == default {
            alt
        } else {
            default
        },
    }
}

/// Keys that end a syllable on the DaChen CP26 layout.
pub open spec fn dc26_end_index(k: KeyIndex) -> bool {
    k == KeyIndex::K17 || k == KeyIndex::K18 || k == KeyIndex::K29 || k == KeyIndex::K20 || k
        == KeyIndex::K48
}

/// The tone an end key writes; space is the unmarked first tone.
pub open spec fn dc26_end_tone(k: KeyIndex) -> Option<Bopomofo> {
    match k {
        KeyIndex::K17 => Some(Bopomofo::TONE2),
        KeyIndex::K18 => Some(Bopomofo::TONE3),
        KeyIndex::K29 => Some(Bopomofo::TONE4),
        KeyIndex::K20 => Some(Bopomofo::TONE5),
        _ => None,
    }
}

/// The ㄧ/ㄚ key cycles: ㄧㄚ clears both, a lone ㄚ gains ㄧ, ㄧ turns into
/// ㄚ, and after any other medial it types ㄚ; otherwise it types ㄧ.
pub open spec fn dc26_i_a_toggle(s: Syllable) -> Syllable {
    if s.medial == Some(Bopomofo::I) && s.rime == Some(Bopomofo::A) {
        Syllable { medial: None, rime: None, ..s }
    } else if s.rime == Some(Bopomofo::A) {
        Syllable { medial: Some(Bopomofo::I), ..s }
    } else if s.medial == Some(Bopomofo::I) {
        Syllable { medial: None, rime: Some(Bopomofo::A), ..s }
    } else if s.medial is Some {
        Syllable { rime: Some(Bopomofo::A), ..s }
    } else {
        Syllable { medial: Some(Bopomofo::I), ..s }
    }
}

/// The ㄩ/ㄡ key cycles between the medial ㄩ and the rime ㄡ; after any
/// other medial it types ㄡ; otherwise it types ㄩ.
pub open spec fn dc26_iu_ou_toggle(s: Syllable) -> Syllable {
    if s.medial == Some(Bopomofo::IU) && s.rime != Some(Bopomofo::OU) {
        Syllable { medial: None, rime: Some(Bopomofo::OU), ..s }
    } else if s.rime == Some(Bopomofo::OU) && s.medial != Some(Bopomofo::IU) {
        Syllable { medial: Some(Bopomofo::IU), rime: None, ..s }
    } else if s.medial is Some {
        Syllable { rime: Some(Bopomofo::OU), ..s }
    } else {
        Syllable { medial: Some(Bopomofo::IU), ..s }
    }
}

/// The symbol a key types, given the syllable so far.
pub open spec fn dc26_symbol(s: Syllable, k: KeyIndex) -> Option<Bopomofo> {
    match k {
        KeyIndex::K15 => Some(default_or_alt_of(s.initial, Bopomofo::B, Bopomofo::P)),
        KeyIndex::K27 => Some(Bopomofo::M),
        KeyIndex::K38 => Some(Bopomofo::F),
        KeyIndex::K16 => Some(default_or_alt_of(s.initial, Bopomofo::D, Bopomofo::T)),
        KeyIndex::K28 => Some(Bopomofo::N),
        KeyIndex::K39 => Some(Bopomofo::L),
        KeyIndex::K17 => Some(Bopomofo::G),
        KeyIndex::K29 => Some(Bopomofo::K),
        KeyIndex::K40 => Some(Bopomofo::H),
        KeyIndex::K18 => Some(Bopomofo::J),
        KeyIndex::K30 => Some(Bopomofo::Q),
        KeyIndex::K41 => Some(Bopomofo::X),
        KeyIndex::K19 => Some(default_or_alt_of(s.initial, Bopomofo::ZH, Bopomofo::CH)),
        KeyIndex::K31 => Some(Bopomofo::SH),
        KeyIndex::K42 => Some(
            if s.initial is Some || s.medial is Some {
                Bopomofo::EH
            } else {
                Bopomofo::R
            },
        ),
        KeyIndex::K20 => Some(Bopomofo::Z),
        KeyIndex::K32 => Some(Bopomofo::C),
        KeyIndex::K43 => Some(
            if s.initial is Some || s.medial is Some {
                Bopomofo::ENG
            } else {
                Bopomofo::S
            },
        ),
        KeyIndex::K33 => Some(Bopomofo::U),
        KeyIndex::K22 => Some(default_or_alt_of(s.rime, Bopomofo::O, Bopomofo::AI)),
        KeyIndex::K34 => Some(Bopomofo::E),
        KeyIndex::K23 => Some(default_or_alt_of(s.rime, Bopomofo::EI, Bopomofo::AN)),
        KeyIndex::K35 => Some(default_or_alt_of(s.rime, Bopomofo::AU, Bopomofo::ANG)),
        KeyIndex::K24 => Some(default_or_alt_of(s.rime, Bopomofo::EN, Bopomofo::ER)),
        _ => None,
    }
}

/// One key press on the DaChen CP26 layout: the next syllable and the
/// behavior.
pub open spec fn dc26_step(s: Syllable, k: KeyIndex) -> (Syllable, KeyBehavior) {
    if dc26_end_index(k) && !s.spec_is_empty() {
        (Syllable { tone: dc26_end_tone(k), ..s }, KeyBehavior::Commit)
    } else if k == KeyIndex::K21 {
        (dc26_i_a_toggle(s), KeyBehavior::Absorb)
    } else if k == KeyIndex::K44 {
        (dc26_iu_ou_toggle(s), KeyBehavior::Absorb)
    } else {
        match dc26_symbol(s, k) {
            None => (s, KeyBehavior::KeyError),
            Some(b) => (updated(s, b), KeyBehavior::Absorb),
        }
    }
}

/// The DaChen CP26 layout: the standard layout folded onto 26 keys.
#[derive(Clone, Copy, Debug)]
pub struct DaiChien26 {
    pub syllable: Syllable,
}

impl DaiChien26 {
    pub open spec fn wf(&self) -> bool {
        self.syllable.wf()
    }

    pub fn new() -> (r: DaiChien26)
        ensures
            r.wf(),
            r.syllable.spec_is_empty(),
    {
        DaiChien26 { syllable: Syllable::new() }
    }

    /// Whether the key ends the syllable: a tone key or space, with
    /// something typed.
    pub fn is_end_key(&self, key: KeyIndex) -> (r: bool)
        ensures
            r == (dc26_end_index(key) && !self.syllable.spec_is_empty()),
    {
        match key {
            KeyIndex::K17 | KeyIndex::K18 | KeyIndex::K29 | KeyIndex::K20 | KeyIndex::K48 => {
                !self.syllable.is_empty()
            },
            _ => false,
        }
    }

    pub fn has_initial_or_medial(&self) -> (r: bool)
        ensures
            r == (self.syllable.initial is Some || self.syllable.medial is Some),
    {
        self.syllable.has_initial() || self.syllable.has_medial()
    }

    /// Handles one key; a finished syllable is reported by `Commit` and
    /// stays readable until `clear`.
    pub fn key_press(&mut self, key: KeyEvent) -> (r: KeyBehavior)
        requires
            old(self).wf(),
        ensures
            final(self).wf(),
            (final(self).syllable, r) == dc26_step(old(self).syllable, key.index),
    {
        if self.is_end_key(key.index) {
            self.syllable.tone =
            match key.index {
                KeyIndex::K17 => Some(Bopomofo::TONE2),
                KeyIndex::K18 => Some(Bopomofo::TONE3),
                KeyIndex::K29 => Some(Bopomofo::TONE4),
                KeyIndex::K20 => Some(Bopomofo::TONE5),
                _ => None,
            };
            return KeyBehavior::Commit;
        }
        if key.index == KeyIndex::K21 {
            if self.syllable.medial == Some(Bopomofo::I) && self.syllable.rime == Some(
                Bopomofo::A,
            ) {
                self.syllable.medial = None;
                self.syllable.rime = None;
            } else if self.syllable.rime == Some(Bopomofo::A) {
                self.syllable.medial = Some(Bopomofo::I);
            } else if self.syllable.medial == Some(Bopomofo::I) {
                self.syllable.medial = None;
                self.syllable.rime = Some(Bopomofo::A);
            } else if self.syllable.medial.is_some() {
                self.syllable.rime = Some(Bopomofo::A);
            } else {
                self.syllable.medial = Some(Bopomofo::I);
            }
            return KeyBehavior::Absorb;
        }
        if key.index == KeyIndex::K44 {
            if self.syllable.medial == Some(Bopomofo::IU) && self.syllable.rime != Some(
                Bopomofo::OU,
            ) {
                self.syllable.medial = None;
                self.syllable.rime = Some(Bopomofo::OU);
            } else if self.syllable.rime == Some(Bopomofo::OU) && self.syllable.medial != Some(
                Bopomofo::IU,
            ) {
                self.syllable.medial = Some(Bopomofo::IU);
                self.syllable.rime = None;
            } else if self.syllable.medial.is_some() {
                self.syllable.rime = Some(Bopomofo::OU);
            } else {
                self.syllable.medial = Some(Bopomofo::IU);
            }
            return KeyBehavior::Absorb;
        }
        let bopomofo = match key.index {
            KeyIndex::K15 => default_or_alt(self.syllable.initial, Bopomofo::B, Bopomofo::P),
            KeyIndex::K27 => Bopomofo::M,
            KeyIndex::K38 => Bopomofo::F,
            KeyIndex::K16 => default_or_alt(self.syllable.initial, Bopomofo::D, Bopomofo::T),
            KeyIndex::K28 => Bopomofo::N,
            KeyIndex::K39 => Bopomofo::L,
            KeyIndex::K17 => Bopomofo::G,
            KeyIndex::K29 => Bopomofo::K,
            KeyIndex::K40 => Bopomofo::H,
            KeyIndex::K18 => Bopomofo::J,
            KeyIndex::K30 => Bopomofo::Q,
            KeyIndex::K41 => Bopomofo::X,
            KeyIndex::K19 => default_or_alt(self.syllable.initial, Bopomofo::ZH, Bopomofo::CH),
            KeyIndex::K31 => Bopomofo::SH,
            KeyIndex::K42 => if self.has_initial_or_medial() {
                Bopomofo::EH
            } else {
                Bopomofo::R
            },
            KeyIndex::K20 => Bopomofo::Z,
            KeyIndex::K32 => Bopomofo::C,
            KeyIndex::K43 => if self.has_initial_or_medial() {
                Bopomofo::ENG
            } else {
                Bopomofo::S
            },
            KeyIndex::K33 => Bopomofo::U,
            KeyIndex::K22 => default_or_alt(self.syllable.rime, Bopomofo::O, Bopomofo::AI),
            KeyIndex::K34 => Bopomofo::E,
            KeyIndex::K23 => default_or_alt(self.syllable.rime, Bopomofo::EI, Bopomofo::AN),
            KeyIndex::K35 => default_or_alt(self.syllable.rime, Bopomofo::AU, Bopomofo::ANG),
            KeyIndex::K24 => default_or_alt(self.syllable.rime, Bopomofo::EN, Bopomofo::ER),
            _ => {
                return KeyBehavior::KeyError;
            },
        };
        self.syllable.update(bopomofo);
        KeyBehavior::Absorb
    }

    pub fn is_entering(&self) -> (r: bool)
        ensures
            r == !self.syllable.spec_is_empty(),
    {
        !self.syllable.is_empty()
    }

    /// Removes the last symbol in display order.
    pub fn pop(&mut self) -> (r: Option<Bopomofo>)
        requires
            old(self).wf(),
        ensures
            final(self).wf(),
            (final(self).syllable, r) == crate::syllable::popped(old(self).syllable),
    {
        self.syllable.pop()
    }

    pub fn clear(&mut self)
        ensures
            final(self).wf(),
            final(self).syllable.spec_is_empty(),
    {
        self.syllable.clear();
    }

    /// The syllable typed so far, without changing it.
    pub fn observe(&self) -> (r: Syllable)
        ensures
            r == self.syllable,
    {
        self.syllable
    }
}

} // verus!
