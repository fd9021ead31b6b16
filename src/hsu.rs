use vstd::prelude::*;

use crate::bopomofo::Bopomofo;
use crate::editor::{apply_palatal_fuzzy, has_phonetic, initial_to_rime, palatal_fuzzy, KeyBehavior};
use crate::keymap::{KeyCode, KeyEvent};
use crate::syllable::{updated, Syllable};

verus! {

/// Keys that end a syllable on the Hsu layout.
pub open spec fn hsu_end_code(c: KeyCode) -> bool {
    c == KeyCode::S || c == KeyCode::D || c == KeyCode::F || c == KeyCode::J || c == KeyCode::Space
}

/// On an end key, a lone initial is read again: ㄐㄑㄒ as ㄓㄔㄕ, and
/// ㄏㄍㄇㄋㄎㄌ as the rimes ㄛㄜㄢㄣㄤㄦ.
pub open spec fn hsu_end_rewrite(s: Syllable) -> Syllable {
    if s.medial is None && s.rime is None {
        match s.initial {
            Some(Bopomofo::J) => Syllable { initial: Some(Bopomofo::ZH), ..s },
            Some(Bopomofo::Q) => Syllable { initial: Some(Bopomofo::CH), ..s },
            Some(Bopomofo::X) => Syllable { initial: Some(Bopomofo::SH), ..s },
            Some(Bopomofo::H) => initial_to_rime(s, Bopomofo::O),
            Some(Bopomofo::G) => initial_to_rime(s, Bopomofo::E),
            Some(Bopomofo::M) => initial_to_rime(s, Bopomofo::AN),
            Some(Bopomofo::N) => initial_to_rime(s, Bopomofo::EN),
            Some(Bopomofo::K) => initial_to_rime(s, Bopomofo::ANG),
            Some(Bopomofo::L) => initial_to_rime(s, Bopomofo::ER),
            _ => s,
        }
    } else {
        s
    }
}

/// ㄍㄧ and ㄐㄧ become ㄐㄩ.
pub open spec fn gi_fuzzy(s: Syllable) -> Syllable {
    if (s.initial == Some(Bopomofo::G) || s.initial == Some(Bopomofo::J)) && s.medial == Some(
        Bopomofo::I,
    ) {
        Syllable { initial: Some(Bopomofo::J), medial: Some(Bopomofo::IU), ..s }
    } else {
        s
    }
}

/// The tone an end key writes; space is the unmarked first tone.
pub open spec fn hsu_end_tone(c: KeyCode) -> Option<Bopomofo> {
    match c {
        KeyCode::D => Some(Bopomofo::TONE2),
        KeyCode::F => Some(Bopomofo::TONE3),
        KeyCode::J => Some(Bopomofo::TONE4),
        KeyCode::S => Some(Bopomofo::TONE5),
        _ => None,
    }
}

/// The symbol a key types; `after` tells whether an initial or a medial is
/// already there, which turns the ambiguous keys into rimes.
pub open spec fn hsu_symbol(c: KeyCode, after: bool) -> Option<Bopomofo> {
    match c {
        KeyCode::A => Some(
            if after {
                Bopomofo::EI
            } else {
                Bopomofo::C
            },
        ),
        KeyCode::B => Some(Bopomofo::B),
        KeyCode::C => Some(Bopomofo::SH),
        KeyCode::D => Some(Bopomofo::D),
        KeyCode::E => Some(Bopomofo::I),
        KeyCode::F => Some(Bopomofo::F),
        KeyCode::G => Some(
            if after {
                Bopomofo::E
            } else {
                Bopomofo::G
            },
        ),
        KeyCode::H => Some(
            if after {
                Bopomofo::O
            } else {
                Bopomofo::H
            },
        ),
        KeyCode::I => Some(Bopomofo::AI),
        KeyCode::J => Some(Bopomofo::ZH),
        KeyCode::K => Some(
            if after {
                Bopomofo::ANG
            } else {
                Bopomofo::K
            },
        ),
        KeyCode::L => Some(
            if after {
                Bopomofo::ENG
            } else {
                Bopomofo::L
            },
        ),
        KeyCode::M => Some(
            if after {
                Bopomofo::AN
            } else {
                Bopomofo::M
            },
        ),
        KeyCode::N => Some(
            if after {
                Bopomofo::EN
            } else {
                Bopomofo::N
            },
        ),
        KeyCode::O => Some(Bopomofo::OU),
        KeyCode::P => Some(Bopomofo::P),
        KeyCode::R => Some(Bopomofo::R),
        KeyCode::S => Some(Bopomofo::S),
        KeyCode::T => Some(Bopomofo::T),
        KeyCode::U => Some(Bopomofo::IU),
        KeyCode::V => Some(Bopomofo::CH),
        KeyCode::W => Some(Bopomofo::AU),
        KeyCode::X => Some(Bopomofo::U),
        KeyCode::Y => Some(Bopomofo::A),
        KeyCode::Z => Some(Bopomofo::Z),
        _ => None,
    }
}

/// One key press on the Hsu layout: the next syllable and the behavior.
pub open spec fn hsu_step(s: Syllable, c: KeyCode) -> (Syllable, KeyBehavior) {
    if hsu_end_code(c) && has_phonetic(s) {
        (Syllable { tone: hsu_end_tone(c), ..gi_fuzzy(hsu_end_rewrite(s)) }, KeyBehavior::Commit)
    } else {
        match hsu_symbol(c, s.initial is Some || s.medial is Some) {
            None => (s, KeyBehavior::NoWord),
            Some(b) => (updated(palatal_fuzzy(s, b), b), KeyBehavior::Absorb),
        }
    }
}

/// The Hsu keyboard layout, which types the 41 symbols on the 26 letters.
#[derive(Clone, Copy, Debug)]
pub struct Hsu {
    pub syllable: Syllable,
}

impl Hsu {
    pub open spec fn wf(&self) -> bool {
        self.syllable.wf()
    }

    pub fn new() -> (r: Hsu)
        ensures
            r.wf(),
            r.syllable.spec_is_empty(),
    {
        Hsu { syllable: Syllable::new() }
    }

    /// An editor that holds the syllable whose slots have these 1-based
    /// positions.
    pub fn from_raw_parts(pho_inx: &[i32]) -> (r: Hsu)
        requires
            pho_inx@.len() >= 4,
            0 <= pho_inx@[0] <= 21,
            0 <= pho_inx@[1] <= 3,
            0 <= pho_inx@[2] <= 13,
            0 <= pho_inx@[3] <= 4,
        ensures
            r.wf(),
            r.syllable == crate::syllable::decode(
                (pho_inx@[0] * 512 + pho_inx@[1] * 128 + pho_inx@[2] * 8 + pho_inx@[3]) as u16,
            ),
    {
        let b = crate::editor::KeyBuf::from_raw_parts(pho_inx);
        Hsu { syllable: Syllable { initial: b.0, medial: b.1, rime: b.2, tone: b.3 } }
    }

    /// Whether the key ends the syllable: one of s d f j and space, with
    /// an initial, a medial or a rime typed.
    pub fn is_hsu_end_key(&self, key: KeyEvent) -> (r: bool)
        ensures
            r == (hsu_end_code(key.code) && has_phonetic(self.syllable)),
    {
        match key.code {
            KeyCode::S | KeyCode::D | KeyCode::F | KeyCode::J | KeyCode::Space => {
                self.syllable.has_initial() || self.syllable.has_medial()
                    || self.syllable.has_rime()
            },
            _ => false,
        }
    }

    pub fn has_initial_or_medial(&self) -> (r: bool)
        ensures
            r == (self.syllable.initial is Some || self.syllable.medial is Some),
    {
        self.syllable.has_initial() || self.syllable.has_medial()
    }

    /// Handles one key; a finished syllable is reported by `Commit` and
    /// stays readable until `clear`.
    pub fn key_press(&mut self, key: KeyEvent) -> (r: KeyBehavior)
        requires
            old(self).wf(),
        ensures
            final(self).wf(),
            (final(self).syllable, r) == hsu_step(old(self).syllable, key.code),
            hsu_end_code(key.code) && has_phonetic(old(self).syllable) ==> r
                == KeyBehavior::Commit && !final(self).syllable.spec_is_empty(),
    {
        if self.is_hsu_end_key(key) {
            if self.syllable.medial.is_none() && self.syllable.rime.is_none() {
                match self.syllable.initial {
                    Some(Bopomofo::J) => {
                        self.syllable.initial = Some(Bopomofo::ZH);
                    },
                    Some(Bopomofo::Q) => {
                        self.syllable.initial = Some(Bopomofo::CH);
                    },
                    Some(Bopomofo::X) => {
                        self.syllable.initial = Some(Bopomofo::SH);
                    },
                    Some(Bopomofo::H) => {
                        self.syllable.initial = None;
                        self.syllable.rime = Some(Bopomofo::O);
                    },
                    Some(Bopomofo::G) => {
                        self.syllable.initial = None;
                        self.syllable.rime = Some(Bopomofo::E);
                    },
                    Some(Bopomofo::M) => {
                        self.syllable.initial = None;
                        self.syllable.rime = Some(Bopomofo::AN);
                    },
                    Some(Bopomofo::N) => {
                        self.syllable.initial = None;
                        self.syllable.rime = Some(Bopomofo::EN);
                    },
                    Some(Bopomofo::K) => {
                        self.syllable.initial = None;
                        self.syllable.rime = Some(Bopomofo::ANG);
                    },
                    Some(Bopomofo::L) => {
                        self.syllable.initial = None;
                        self.syllable.rime = Some(Bopomofo::ER);
                    },
                    _ => {},
                }
            }
            if (self.syllable.initial == Some(Bopomofo::G) || self.syllable.initial == Some(
                Bopomofo::J,
            )) && self.syllable.medial == Some(Bopomofo::I) {
                self.syllable.initial = Some(Bopomofo::J);
                self.syllable.medial = Some(Bopomofo::IU);
            }
            self.syllable.tone =
            match key.code {
                KeyCode::D => Some(Bopomofo::TONE2),
                KeyCode::F => Some(Bopomofo::TONE3),
                KeyCode::J => Some(Bopomofo::TONE4),
                KeyCode::S => Some(Bopomofo::TONE5),
                _ => None,
            };
            KeyBehavior::Commit
        } else {
            let after = self.has_initial_or_medial();
            let bopomofo = match key.code {
                KeyCode::A => if after {
                    Bopomofo::EI
                } else {
                    Bopomofo::C
                },
                KeyCode::B => Bopomofo::B,
                KeyCode::C => Bopomofo::SH,
                KeyCode::D => Bopomofo::D,
                KeyCode::E => Bopomofo::I,
                KeyCode::F => Bopomofo::F,
                KeyCode::G => if after {
                    Bopomofo::E
                } else {
                    Bopomofo::G
                },
                KeyCode::H => if after {
                    Bopomofo::O
                } else {
                    Bopomofo::H
                },
                KeyCode::I => Bopomofo::AI,
                KeyCode::J => Bopomofo::ZH,
                KeyCode::K => if after {
                    Bopomofo::ANG
                } else {
                    Bopomofo::K
                },
                KeyCode::L => if after {
                    Bopomofo::ENG
                } else {
                    Bopomofo::L
                },
                KeyCode::M => if after {
                    Bopomofo::AN
                } else {
                    Bopomofo::M
                },
                KeyCode::N => if after {
                    Bopomofo::EN
                } else {
                    Bopomofo::N
                },
                KeyCode::O => Bopomofo::OU,
                KeyCode::P => Bopomofo::P,
                KeyCode::R => Bopomofo::R,
                KeyCode::S => Bopomofo::S,
                KeyCode::T => Bopomofo::T,
                KeyCode::U => Bopomofo::IU,
                KeyCode::V => Bopomofo::CH,
                KeyCode::W => Bopomofo::AU,
                KeyCode::X => Bopomofo::U,
                KeyCode::Y => Bopomofo::A,
                KeyCode::Z => Bopomofo::Z,
                _ => {
                    return KeyBehavior::NoWord;
                },
            };
            apply_palatal_fuzzy(&mut self.syllable, bopomofo);
            self.syllable.update(bopomofo);
            KeyBehavior::Absorb
        }
    }

    pub fn is_entering(&self) -> (r: bool)
        ensures
            r == !self.syllable.spec_is_empty(),
    {
        !self.syllable.is_empty()
    }

    /// Removes the last symbol in display order.
    pub fn pop(&mut self) -> (r: Option<Bopomofo>)
        requires
            old(self).wf(),
        ensures
            final(self).wf(),
            (final(self).syllable, r) == crate::syllable::popped(old(self).syllable),
    {
        self.syllable.pop()
    }

    pub fn clear(&mut self)
        ensures
            final(self).wf(),
            final(self).syllable.spec_is_empty(),
    {
        self.syllable.clear();
    }

    /// The syllable typed so far, without changing it.
    pub fn observe(&self) -> (r: Syllable)
        ensures
            r == self.syllable,
    {
        self.syllable
    }
}

} // verus!
