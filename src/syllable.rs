use vstd::prelude::*;

use crate::bopomofo::{
    char_of, initial_at, initial_index_of, kind_of, lemma_at_round_trip, lemma_index_round_trip,
    medial_at, medial_index_of, rime_at, rime_index_of, tone_at, tone_index_of, Bopomofo,
    BopomofoKind,
};

verus! {

/// The consonants and vowels that are taken together to make a single sound.
///
/// A syllable holds at most one symbol of each kind. The unmarked first tone
/// is never stored: it is the absence of a tone mark.
#[derive(Clone, Copy, Debug, PartialEq, Eq, Structural, Hash)]
pub struct Syllable {
    pub initial: Option<Bopomofo>,
    pub medial: Option<Bopomofo>,
    pub rime: Option<Bopomofo>,
    pub tone: Option<Bopomofo>,
}

/// Error returned when a 16-bit code names no symbol in some slot.
#[derive(Clone, Copy, Debug, PartialEq, Eq, Structural)]
pub struct DecodeSyllableError {
    pub code: u16,
}

/// Each slot holds a symbol of its own kind, and the tone slot never holds
/// the unmarked first tone.
pub open spec fn slots_wf(
    initial: Option<Bopomofo>,
    medial: Option<Bopomofo>,
    rime: Option<Bopomofo>,
    tone: Option<Bopomofo>,
) -> bool {
    &&& (initial matches Some(b) ==> kind_of(b) == BopomofoKind::Initial)
    &&& (medial matches Some(b) ==> kind_of(b) == BopomofoKind::Medial)
    &&& (rime matches Some(b) ==> kind_of(b) == BopomofoKind::Rime)
    &&& (tone matches Some(b) ==> kind_of(b) == BopomofoKind::Tone && b != Bopomofo::TONE1)
}

/// The slot index of an optional symbol: 0 when absent.
pub open spec fn slot_index(o: Option<Bopomofo>, kind: BopomofoKind) -> int {
    match o {
        None => 0,
        Some(b) => match kind {
            BopomofoKind::Initial => initial_index_of(b),
            BopomofoKind::Medial => medial_index_of(b),
            BopomofoKind::Rime => rime_index_of(b),
            BopomofoKind::Tone => tone_index_of(b),
        },
    }
}

/// The 16-bit code of a syllable: bits 15..9 initial, 8..7 medial,
/// 6..3 rime, 2..0 tone, each the 1-based position of the symbol or 0.
pub open spec fn encode(s: Syllable) -> int {
    slot_index(s.initial, BopomofoKind::Initial) * 512 + slot_index(s.medial, BopomofoKind::Medial)
        * 128 + slot_index(s.rime, BopomofoKind::Rime) * 8 + slot_index(s.tone, BopomofoKind::Tone)
}

pub open spec fn initial_field(x: int) -> int {
    x / 512
}

pub open spec fn medial_field(x: int) -> int {
    (x / 128) % 4
}

pub open spec fn rime_field(x: int) -> int {
    (x / 8) % 16
}

pub open spec fn tone_field(x: int) -> int {
    x % 8
}

/// A 16-bit code is legal when every field names a symbol or is 0.
pub open spec fn code_is_valid(x: u16) -> bool {
    initial_field(x as int) <= 21 && rime_field(x as int) <= 13 && tone_field(x as int) <= 4
}

/// The syllable a legal code names.
pub open spec fn decode(x: u16) -> Syllable {
    let i = initial_field(x as int);
    let m = medial_field(x as int);
    let r = rime_field(x as int);
    let t = tone_field(x as int);
    Syllable {
        initial: if i == 0 {
            None
        } else {
            Some(initial_at(i))
        },
        medial: if m == 0 {
            None
        } else {
            Some(medial_at(m))
        },
        rime: if r == 0 {
            None
        } else {
            Some(rime_at(r))
        },
        tone: if t == 0 {
            None
        } else {
            Some(tone_at(t))
        },
    }
}

/// The characters that render a syllable: initial, medial, rime, tone.
pub open spec fn render(s: Syllable) -> Seq<char> {
    let f = |o: Option<Bopomofo>|
        match o {
            Some(b) => seq![char_of(b)],
            None => Seq::<char>::empty(),
        };
    f(s.initial) + f(s.medial) + f(s.rime) + f(s.tone)
}

/// The syllable after `b` took the slot of its kind; the unmarked first tone
/// clears the tone slot.
pub open spec fn updated(s: Syllable, b: Bopomofo) -> Syllable {
    match kind_of(b) {
        BopomofoKind::Initial => Syllable { initial: Some(b), ..s },
        BopomofoKind::Medial => Syllable { medial: Some(b), ..s },
        BopomofoKind::Rime => Syllable { rime: Some(b), ..s },
        BopomofoKind::Tone => Syllable {
            tone: if b == Bopomofo::TONE1 {
                None
            } else {
                Some(b)
            },
            ..s
        },
    }
}

/// The syllable after removing the last symbol in display order.
pub open spec fn popped(s: Syllable) -> (Syllable, Option<Bopomofo>) {
    if s.tone is Some {
        (Syllable { tone: None, ..s }, s.tone)
    } else if s.rime is Some {
        (Syllable { rime: None, ..s }, s.rime)
    } else if s.medial is Some {
        (Syllable { medial: None, ..s }, s.medial)
    } else if s.initial is Some {
        (Syllable { initial: None, ..s }, s.initial)
    } else {
        (s, None)
    }
}

pub open spec fn empty_syllable() -> Syllable {
    Syllable { initial: None, medial: None, rime: None, tone: None }
}

impl Syllable {
    pub open spec fn wf(&self) -> bool {
        slots_wf(self.initial, self.medial, self.rime, self.tone)
    }

    pub open spec fn spec_is_empty(&self) -> bool {
        self.initial is None && self.medial is None && self.rime is None && self.tone is None
    }

    /// Whether each slot holds a symbol of its kind.
    pub fn is_well_formed(&self) -> (r: bool)
        ensures
            r == self.wf(),
    {
        let i = match self.initial {
            Some(b) => b.kind() == BopomofoKind::Initial,
            None => true,
        };
        let m = match self.medial {
            Some(b) => b.kind() == BopomofoKind::Medial,
            None => true,
        };
        let r = match self.rime {
            Some(b) => b.kind() == BopomofoKind::Rime,
            None => true,
        };
        let t = match self.tone {
            Some(b) => b.kind() == BopomofoKind::Tone && b != Bopomofo::TONE1,
            None => true,
        };
        i && m && r && t
    }

    /// The empty syllable.
    pub fn new() -> (r: Syllable)
        ensures
            r == empty_syllable(),
            r.wf(),
    {
        Syllable { initial: None, medial: None, rime: None, tone: None }
    }

    /// A builder that starts from the empty syllable.
    pub fn builder() -> (r: SyllableBuilder)
        ensures
            r.syllable == empty_syllable(),
    {
        SyllableBuilder { syllable: Syllable::new() }
    }

    pub fn initial(&self) -> (r: Option<Bopomofo>)
        ensures
            r == self.initial,
    {
        self.initial
    }

    pub fn medial(&self) -> (r: Option<Bopomofo>)
        ensures
            r == self.medial,
    {
        self.medial
    }

    pub fn rime(&self) -> (r: Option<Bopomofo>)
        ensures
            r == self.rime,
    {
        self.rime
    }

    pub fn tone(&self) -> (r: Option<Bopomofo>)
        ensures
            r == self.tone,
    {
        self.tone
    }

    pub fn remove_initial(&mut self) -> (r: Option<Bopomofo>)
        ensures
            r == old(self).initial,
            *final(self) == (Syllable { initial: None, ..*old(self) }),
    {
        let r = self.initial;
        self.initial = None;
        r
    }

    pub fn remove_medial(&mut self) -> (r: Option<Bopomofo>)
        ensures
            r == old(self).medial,
            *final(self) == (Syllable { medial: None, ..*old(self) }),
    {
        let r = self.medial;
        self.medial = None;
        r
    }

    pub fn remove_rime(&mut self) -> (r: Option<Bopomofo>)
        ensures
            r == old(self).rime,
            *final(self) == (Syllable { rime: None, ..*old(self) }),
    {
        let r = self.rime;
        self.rime = None;
        r
    }

    pub fn remove_tone(&mut self) -> (r: Option<Bopomofo>)
        ensures
            r == old(self).tone,
            *final(self) == (Syllable { tone: None, ..*old(self) }),
    {
        let r = self.tone;
        self.tone = None;
        r
    }

    pub fn is_empty(&self) -> (r: bool)
        ensures
            r == self.spec_is_empty(),
    {
        self.initial.is_none() && self.medial.is_none() && self.rime.is_none()
            && self.tone.is_none()
    }

    pub fn has_initial(&self) -> (r: bool)
        ensures
            r == self.initial is Some,
    {
        self.initial.is_some()
    }

    pub fn has_medial(&self) -> (r: bool)
        ensures
            r == self.medial is Some,
    {
        self.medial.is_some()
    }

    pub fn has_rime(&self) -> (r: bool)
        ensures
            r == self.rime is Some,
    {
        self.rime.is_some()
    }

    pub fn has_tone(&self) -> (r: bool)
        ensures
            r == self.tone is Some,
    {
        self.tone.is_some()
    }

    /// The 16-bit code of the syllable (0 for the empty syllable).
    pub fn to_u16(&self) -> (r: u16)
        requires
            self.wf(),
        ensures
            r as int == encode(*self),
    {
        proof {
            lemma_encode_bounds(*self);
        }
        let i: u16 = match self.initial {
            Some(b) => b.initial_index() as u16,
            None => 0,
        };
        let m: u16 = match self.medial {
            Some(b) => b.medial_index() as u16,
            None => 0,
        };
        let r: u16 = match self.rime {
            Some(b) => b.rime_index() as u16,
            None => 0,
        };
        let t: u16 = match self.tone {
            Some(b) => b.tone_index() as u16,
            None => 0,
        };
        i * 512 + m * 128 + r * 8 + t
    }

    /// The 16-bit code of the syllable as little-endian bytes.
    pub fn to_le_bytes(&self) -> (r: [u8; 2])
        requires
            self.wf(),
        ensures
            r@[0] as int == encode(*self) % 256,
            r@[1] as int == encode(*self) / 256,
    {
        let v = self.to_u16();
        [(v % 256) as u8, (v / 256) as u8]
    }

    /// Decodes a 16-bit code.
    pub fn from_u16(x: u16) -> (r: Result<Syllable, DecodeSyllableError>)
        ensures
            r is Ok <==> code_is_valid(x),
            r matches Ok(s) ==> s == decode(x) && s.wf(),
            r matches Err(e) ==> e.code == x,
    {
        let i = x / 512;
        let m = (x / 128) % 4;
        let r = (x / 8) % 16;
        let t = x % 8;
        if i > 21 || r > 13 || t > 4 {
            return Err(DecodeSyllableError { code: x });
        }
        proof {
            lemma_at_round_trip(i as int);
            lemma_at_round_trip(m as int);
            lemma_at_round_trip(r as int);
            lemma_at_round_trip(t as int);
        }
        let s = Syllable {
            initial: if i == 0 {
                None
            } else {
                Some(Bopomofo::from_initial(i as i32))
            },
            medial: if m == 0 {
                None
            } else {
                Some(Bopomofo::from_medial(m as i32))
            },
            rime: if r == 0 {
                None
            } else {
                Some(Bopomofo::from_rime(r as i32))
            },
            tone: if t == 0 {
                None
            } else {
                Some(Bopomofo::from_tone(t as i32))
            },
        };
        Ok(s)
    }

    /// Puts `bopomofo` in the slot of its kind, replacing what was there.
    /// The unmarked first tone clears the tone slot.
    pub fn update(&mut self, bopomofo: Bopomofo)
        requires
            old(self).wf(),
        ensures
            *final(self) == updated(*old(self), bopomofo),
            final(self).wf(),
    {
        match bopomofo.kind() {
            BopomofoKind::Initial => {
                self.initial = Some(bopomofo);
            },
            BopomofoKind::Medial => {
                self.medial = Some(bopomofo);
            },
            BopomofoKind::Rime => {
                self.rime = Some(bopomofo);
            },
            BopomofoKind::Tone => {
                if bopomofo == Bopomofo::TONE1 {
                    self.tone = None;
                } else {
                    self.tone = Some(bopomofo);
                }
            },
        }
    }

    /// Removes and returns the last symbol in display order: tone, rime,
    /// medial, then initial.
    pub fn pop(&mut self) -> (r: Option<Bopomofo>)
        ensures
            (*final(self), r) == popped(*old(self)),
    {
        if self.tone.is_some() {
            return self.remove_tone();
        }
        if self.rime.is_some() {
            return self.remove_rime();
        }
        if self.medial.is_some() {
            return self.remove_medial();
        }
        if self.initial.is_some() {
            return self.remove_initial();
        }
        None
    }

    pub fn clear(&mut self)
        ensures
            *final(self) == empty_syllable(),
    {
        *self = Syllable::new();
    }

    /// The syllable rendered in display order.
    pub fn to_string(&self) -> (r: String)
        ensures
            r@ == render(*self),
    {
        let mut r = String::new();
        if let Some(b) = self.initial {
            r.append(b.as_str());
        }
        if let Some(b) = self.medial {
            r.append(b.as_str());
        }
        if let Some(b) = self.rime {
            r.append(b.as_str());
        }
        if let Some(b) = self.tone {
            r.append(b.as_str());
        }
        proof {
            assert(r@ =~= render(*self));
        }
        r
    }
}

/// Builds a syllable one symbol at a time; each slot may be filled once.
#[derive(Clone, Copy, Debug)]
pub struct SyllableBuilder {
    pub syllable: Syllable,
}

/// The slot of `b`'s kind is free in `s`.
pub open spec fn slot_free(s: Syllable, b: Bopomofo) -> bool {
    match kind_of(b) {
        BopomofoKind::Initial => s.initial is None,
        BopomofoKind::Medial => s.medial is None,
        BopomofoKind::Rime => s.rime is None,
        BopomofoKind::Tone => s.tone is None,
    }
}

impl SyllableBuilder {
    /// Adds a symbol to a free slot.
    pub fn insert(self, bopomofo: Bopomofo) -> (r: SyllableBuilder)
        requires
            self.syllable.wf(),
            slot_free(self.syllable, bopomofo),
        ensures
            r.syllable == updated(self.syllable, bopomofo),
            r.syllable.wf(),
    {
        let mut s = self.syllable;
        s.update(bopomofo);
        SyllableBuilder { syllable: s }
    }

    pub fn build(self) -> (r: Syllable)
        ensures
            r == self.syllable,
    {
        self.syllable
    }
}

impl Default for Syllable {
    fn default() -> (r: Syllable)
        ensures
            r == empty_syllable(),
    {
        Syllable::new()
    }
}

/// The little-endian bytes of each syllable's code, concatenated.
pub open spec fn syllables_bytes_of(syls: Seq<Syllable>) -> Seq<u8>
    decreases syls.len(),
{
    if syls.len() == 0 {
        Seq::empty()
    } else {
        let last = syls.last();
        syllables_bytes_of(syls.drop_last()) + seq![
            (encode(last) % 256) as u8,
            (encode(last) / 256) as u8,
        ]
    }
}

/// Concatenation of each syllable's code in little-endian order, the key
/// under which a sequence of syllables is stored.
pub fn syllables_bytes(syls: &Vec<Syllable>) -> (r: Vec<u8>)
    requires
        forall|i: int| 0 <= i < syls@.len() ==> (#[trigger] syls@[i]).wf(),
    ensures
        r@ == syllables_bytes_of(syls@),
{
    let mut r: Vec<u8> = Vec::new();
    let mut i: usize = 0;
    while i < syls.len()
        invariant
            i <= syls@.len(),
            forall|j: int| 0 <= j < syls@.len() ==> (#[trigger] syls@[j]).wf(),
            r@ == syllables_bytes_of(syls@.subrange(0, i as int)),
        decreases syls@.len() - i,
    {
        let bytes = syls[i].to_le_bytes();
        r.push(bytes[0]);
        r.push(bytes[1]);
        proof {
            let sub = syls@.subrange(0, i as int + 1);
            assert(sub.drop_last() =~= syls@.subrange(0, i as int));
        }
        i = i + 1;
    }
    proof {
        assert(syls@.subrange(0, syls@.len() as int) =~= syls@);
    }
    r
}

/// Bounds on the slot indexes of a well-formed syllable.
pub proof fn lemma_encode_bounds(s: Syllable)
    requires
        s.wf(),
    ensures
        0 <= slot_index(s.initial, BopomofoKind::Initial) <= 21,
        0 <= slot_index(s.medial, BopomofoKind::Medial) <= 3,
        0 <= slot_index(s.rime, BopomofoKind::Rime) <= 13,
        0 <= slot_index(s.tone, BopomofoKind::Tone) <= 4,
        0 <= encode(s) < 65536,
{
    if let Some(b) = s.initial {
        lemma_index_round_trip(b);
    }
    if let Some(b) = s.medial {
        lemma_index_round_trip(b);
    }
    if let Some(b) = s.rime {
        lemma_index_round_trip(b);
    }
    if let Some(b) = s.tone {
        lemma_index_round_trip(b);
    }
}

/// Decoding the code of a syllable gives the syllable back.
pub proof fn lemma_decode_encode(s: Syllable)
    requires
        s.wf(),
    ensures
        code_is_valid(encode(s) as u16),
        decode(encode(s) as u16) == s,
{
    lemma_encode_bounds(s);
    let i = slot_index(s.initial, BopomofoKind::Initial);
    let m = slot_index(s.medial, BopomofoKind::Medial);
    let r = slot_index(s.rime, BopomofoKind::Rime);
    let t = slot_index(s.tone, BopomofoKind::Tone);
    let x = encode(s);
    assert(x == i * 512 + m * 128 + r * 8 + t);
    assert(x / 512 == i && (x / 128) % 4 == m && (x / 8) % 16 == r && x % 8 == t) by (
    nonlinear_arith)
        requires
            x == i * 512 + m * 128 + r * 8 + t,
            0 <= i <= 21,
            0 <= m <= 3,
            0 <= r <= 13,
            0 <= t <= 4,
    ;
    if let Some(b) = s.initial {
        lemma_index_round_trip(b);
    }
    if let Some(b) = s.medial {
        lemma_index_round_trip(b);
    }
    if let Some(b) = s.rime {
        lemma_index_round_trip(b);
    }
    if let Some(b) = s.tone {
        lemma_index_round_trip(b);
    }
}

/// Encoding the syllable a legal code names gives the code back.
pub proof fn lemma_encode_decode(x: u16)
    requires
        code_is_valid(x),
    ensures
        decode(x).wf(),
        encode(decode(x)) == x as int,
{
    let v = x as int;
    let i = initial_field(v);
    let m = medial_field(v);
    let r = rime_field(v);
    let t = tone_field(v);
    lemma_at_round_trip(i);
    lemma_at_round_trip(m);
    lemma_at_round_trip(r);
    lemma_at_round_trip(t);
    assert(v == i * 512 + m * 128 + r * 8 + t) by (nonlinear_arith)
        requires
            0 <= v < 65536,
            i == v / 512,
            m == (v / 128) % 4,
            r == (v / 8) % 16,
            t == v % 8,
    ;
    assert(0 <= m <= 3);
}

/// The syllables of a row of 16-bit codes, skipping codes that name no
/// syllable and empty ones.
pub open spec fn decoded_phones(ps: Seq<u16>) -> Seq<Syllable>
    decreases ps.len(),
{
    if ps.len() == 0 {
        Seq::empty()
    } else {
        let rest = decoded_phones(ps.drop_last());
        if code_is_valid(ps.last()) && !decode(ps.last()).spec_is_empty() {
            rest.push(decode(ps.last()))
        } else {
            rest
        }
    }
}

/// Decodes a row of codes, dropping those that name no syllable and the
/// empty ones.
pub fn syllables_from_phones(phones: &Vec<u16>) -> (r: Vec<Syllable>)
    ensures
        r@ == decoded_phones(phones@),
        forall|i: int| 0 <= i < r@.len() ==> (#[trigger] r@[i]).wf(),
{
    let mut r: Vec<Syllable> = Vec::new();
    let mut i: usize = 0;
    while i < phones.len()
        invariant
            i <= phones@.len(),
            r@ == decoded_phones(phones@.subrange(0, i as int)),
            forall|j: int| 0 <= j < r@.len() ==> (#[trigger] r@[j]).wf(),
        decreases phones@.len() - i,
    {
        proof {
            let sub = phones@.subrange(0, i as int + 1);
            assert(sub.drop_last() =~= phones@.subrange(0, i as int));
        }
        match Syllable::from_u16(phones[i]) {
            Ok(s) => {
                if !s.is_empty() {
                    r.push(s);
                }
            },
            Err(_) => {},
        }
        i = i + 1;
    }
    proof {
        assert(phones@.subrange(0, phones@.len() as int) =~= phones@);
    }
    r
}

/// The syllables whose codes, as little-endian pairs, are these bytes; none
/// when the length is odd or a code names no syllable.
pub open spec fn decode_bytes(b: Seq<u8>) -> Option<Seq<Syllable>>
    decreases b.len(),
{
    if b.len() == 0 {
        Some(Seq::empty())
    } else if b.len() == 1 {
        None
    } else {
        let code = (b[b.len() - 2] as int + b[b.len() - 1] as int * 256) as u16;
        match decode_bytes(b.subrange(0, b.len() - 2)) {
            Some(rest) => if code_is_valid(code) {
                Some(rest.push(decode(code)))
            } else {
                None
            },
            None => None,
        }
    }
}

/// Decodes a key of little-endian syllable codes.
pub fn syllables_from_bytes(b: &Vec<u8>) -> (r: Option<Vec<Syllable>>)
    ensures
        match decode_bytes(b@) {
            Some(s) => r matches Some(v) && v@ == s,
            None => r is None,
        },
{
    if b.len() % 2 == 1 {
        proof {
            lemma_decode_bytes_odd(b@);
        }
        return None;
    }
    let mut r: Vec<Syllable> = Vec::new();
    let mut i: usize = 0;
    while i < b.len()
        invariant
            i <= b@.len(),
            i % 2 == 0,
            b@.len() % 2 == 0,
            decode_bytes(b@.subrange(0, i as int)) == Some(r@),
        decreases b@.len() - i,
    {
        let code: u16 = (b[i] as u16) + (b[i + 1] as u16) * 256;
        proof {
            let sub = b@.subrange(0, i as int + 2);
            assert(sub.subrange(0, i as int) =~= b@.subrange(0, i as int));
            assert(sub[sub.len() - 2] == b@[i as int]);
            assert(sub[sub.len() - 1] == b@[i as int + 1]);
        }
        match Syllable::from_u16(code) {
            Ok(s) => {
                r.push(s);
            },
            Err(_) => {
                proof {
                    lemma_decode_bytes_fails_after(b@, i as int + 2);
                }
                return None;
            },
        }
        i = i + 2;
    }
    proof {
        assert(b@.subrange(0, b@.len() as int) =~= b@);
    }
    Some(r)
}

proof fn lemma_decode_bytes_odd(b: Seq<u8>)
    requires
        b.len() % 2 == 1,
    ensures
        decode_bytes(b) is None,
    decreases b.len(),
{
    if b.len() > 1 {
        lemma_decode_bytes_odd(b.subrange(0, b.len() - 2));
    }
}

/// Once a prefix fails to decode, every longer even prefix fails too.
proof fn lemma_decode_bytes_fails_after(b: Seq<u8>, k: int)
    requires
        0 <= k <= b.len(),
        k % 2 == 0,
        b.len() % 2 == 0,
        decode_bytes(b.subrange(0, k)) is None,
    ensures
        decode_bytes(b) is None,
    decreases b.len() - k,
{
    if k < b.len() {
        let sub = b.subrange(0, k + 2);
        assert(sub.subrange(0, k) =~= b.subrange(0, k));
        lemma_decode_bytes_fails_after(b, k + 2);
    } else {
        assert(b.subrange(0, k) =~= b);
    }
}

/// Keys round-trip: the bytes of well-formed syllables decode back to them.
pub proof fn lemma_bytes_round_trip(syls: Seq<Syllable>)
    requires
        forall|i: int| 0 <= i < syls.len() ==> (#[trigger] syls[i]).wf(),
    ensures
        decode_bytes(syllables_bytes_of(syls)) == Some(syls),
    decreases syls.len(),
{
    if syls.len() > 0 {
        let init = syls.drop_last();
        let last = syls.last();
        assert forall|i: int| 0 <= i < init.len() implies (#[trigger] init[i]).wf() by {
            assert(init[i] == syls[i]);
        }
        lemma_bytes_round_trip(init);
        lemma_decode_encode(last);
        lemma_encode_bounds(last);
        let b = syllables_bytes_of(syls);
        let e = encode(last);
        assert(b.subrange(0, b.len() - 2) =~= syllables_bytes_of(init));
        assert((((e % 256) as u8) as int + ((e / 256) as u8) as int * 256) == e);
        assert(syls =~= init.push(last));
    }
}

} // verus!
