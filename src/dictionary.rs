use vstd::prelude::*;

use crate::syllable::Syllable;
use core::cmp::Ordering;
use vstd::string::StrSliceExecFns;

verus! {

/// A phrase and how often it is used.
#[derive(Debug)]
pub struct Phrase {
    pub text: String,
    pub freq: u32,
    pub last_used: Option<u64>,
}

/// What a phrase holds, as plain values.
pub struct PhraseView {
    pub text: Seq<char>,
    pub freq: u32,
    pub last_used: Option<u64>,
}

impl View for Phrase {
    type V = PhraseView;

    open spec fn view(&self) -> PhraseView {
        PhraseView { text: self.text@, freq: self.freq, last_used: self.last_used }
    }
}

/// Lexicographic order of texts, character by character; a proper prefix
/// comes first.
pub open spec fn text_order(a: Seq<char>, b: Seq<char>) -> Ordering
    decreases a.len(),
{
    if a.len() == 0 {
        if b.len() == 0 {
            Ordering::Equal
        } else {
            Ordering::Less
        }
    } else if b.len() == 0 {
        Ordering::Greater
    } else if (a[0] as u32) < (b[0] as u32) {
        Ordering::Less
    } else if (a[0] as u32) > (b[0] as u32) {
        Ordering::Greater
    } else {
        text_order(a.subrange(1, a.len() as int), b.subrange(1, b.len() as int))
    }
}

/// Phrases order by frequency, then by text: a more frequent phrase is
/// greater.
pub open spec fn phrase_order(a: PhraseView, b: PhraseView) -> Ordering {
    if a.freq < b.freq {
        Ordering::Less
    } else if a.freq > b.freq {
        Ordering::Greater
    } else {
        text_order(a.text, b.text)
    }
}

pub open spec fn phrases_view(v: Seq<Phrase>) -> Seq<PhraseView> {
    v.map_values(|p: Phrase| p@)
}

impl Phrase {
    pub fn new(text: String, freq: u32) -> (r: Phrase)
        ensures
            r@ == (PhraseView { text: text@, freq, last_used: None }),
    {
        Phrase { text, freq, last_used: None }
    }

    pub fn with_time(text: String, freq: u32, last_used: u64) -> (r: Phrase)
        ensures
            r@ == (PhraseView { text: text@, freq, last_used: Some(last_used) }),
    {
        Phrase { text, freq, last_used: Some(last_used) }
    }

    pub fn freq(&self) -> (r: u32)
        ensures
            r == self.freq,
    {
        self.freq
    }

    pub fn last_used(&self) -> (r: Option<u64>)
        ensures
            r == self.last_used,
    {
        self.last_used
    }

    pub fn as_str(&self) -> (r: &str)
        ensures
            r@ == self.text@,
    {
        self.text.as_str()
    }

    /// Compares by frequency, then by text.
    pub fn order(&self, other: &Phrase) -> (r: Ordering)
        ensures
            r == phrase_order(self@, other@),
    {
        if self.freq < other.freq {
            return Ordering::Less;
        }
        if self.freq > other.freq {
            return Ordering::Greater;
        }
        let a = self.text.as_str();
        let b = other.text.as_str();
        let la = a.unicode_len();
        let lb = b.unicode_len();
        let mut i: usize = 0;
        proof {
            assert(a@.subrange(0, la as int) =~= a@);
            assert(b@.subrange(0, lb as int) =~= b@);
        }
        while i < la && i < lb
            invariant
                i <= la,
                i <= lb,
                a@ == self.text@,
                b@ == other.text@,
                self.freq == other.freq,
                la == a@.len(),
                lb == b@.len(),
                text_order(a@, b@) == text_order(
                    a@.subrange(i as int, la as int),
                    b@.subrange(i as int, lb as int),
                ),
            decreases la - i,
        {
            let x = a.get_char(i);
            let y = b.get_char(i);
            let ghost sa = a@.subrange(i as int, la as int);
            let ghost sb = b@.subrange(i as int, lb as int);
            proof {
                assert(sa[0] == x && sb[0] == y);
                assert(sa.subrange(1, sa.len() as int) =~= a@.subrange(i + 1, la as int));
                assert(sb.subrange(1, sb.len() as int) =~= b@.subrange(i + 1, lb as int));
            }
            if (x as u32) < (y as u32) {
                assert(text_order(sa, sb) == Ordering::Less);
                return Ordering::Less;
            }
            if (x as u32) > (y as u32) {
                assert(text_order(sa, sb) == Ordering::Greater);
                return Ordering::Greater;
            }
            i = i + 1;
        }
        let ghost sa = a@.subrange(i as int, la as int);
        let ghost sb = b@.subrange(i as int, lb as int);
        if la == lb {
            assert(sa.len() == 0 && sb.len() == 0);
            Ordering::Equal
        } else if i == la {
            assert(sa.len() == 0 && sb.len() > 0);
            Ordering::Less
        } else {
            assert(sa.len() > 0 && sb.len() == 0);
            Ordering::Greater
        }
    }

    pub fn copy(&self) -> (r: Phrase)
        ensures
            r@ == self@,
    {
        Phrase { text: self.text.clone(), freq: self.freq, last_used: self.last_used }
    }
}

pub fn copy_phrases(v: &Vec<Phrase>) -> (r: Vec<Phrase>)
    ensures
        phrases_view(r@) == phrases_view(v@),
{
    let mut r: Vec<Phrase> = Vec::new();
    let mut i: usize = 0;
    while i < v.len()
        invariant
            i <= v@.len(),
            r@.len() == i,
            forall|j: int| 0 <= j < i ==> (#[trigger] r@[j])@ == v@[j]@,
        decreases v@.len() - i,
    {
        r.push(v[i].copy());
        i = i + 1;
    }
    proof {
        assert(phrases_view(r@) =~= phrases_view(v@));
    }
    r
}

pub fn copy_syllables(v: &Vec<Syllable>) -> (r: Vec<Syllable>)
    ensures
        r@ == v@,
{
    let mut r: Vec<Syllable> = Vec::new();
    let mut i: usize = 0;
    while i < v.len()
        invariant
            i <= v@.len(),
            r@ == v@.subrange(0, i as int),
        decreases v@.len() - i,
    {
        r.push(v[i]);
        proof {
            assert(r@ =~= v@.subrange(0, i as int + 1));
        }
        i = i + 1;
    }
    proof {
        assert(v@.subrange(0, v@.len() as int) =~= v@);
    }
    r
}

/// Error of a storage backend during a mutation.
#[derive(Debug, Clone, Copy, PartialEq, Eq, Structural)]
pub struct DictionaryUpdateError {
    pub reason: u32,
}

/// Error of an insert whose phrase is already stored under the syllables.
#[derive(Debug, Clone, Copy, PartialEq, Eq, Structural)]
pub struct DuplicatePhraseError {
    pub index: usize,
}

/// Error of a dictionary builder.
#[derive(Debug, Clone, Copy, PartialEq, Eq, Structural)]
pub struct BuildDictionaryError {
    pub reason: u32,
}

/// Metadata of a dictionary.
#[derive(Debug)]
pub struct DictionaryInfo {
    pub name: Option<String>,
    pub copyright: Option<String>,
    pub license: Option<String>,
    pub version: Option<String>,
    pub software: Option<String>,
    pub created_date: Option<String>,
}

fn copy_text(s: &Option<String>) -> (r: Option<String>)
    ensures
        r == *s,
{
    match s {
        Some(t) => Some(t.clone()),
        None => None,
    }
}

impl DictionaryInfo {
    pub fn copy(&self) -> (r: DictionaryInfo)
        ensures
            r == *self,
    {
        DictionaryInfo {
            name: copy_text(&self.name),
            copyright: copy_text(&self.copyright),
            license: copy_text(&self.license),
            version: copy_text(&self.version),
            software: copy_text(&self.software),
            created_date: copy_text(&self.created_date),
        }
    }

    pub fn empty() -> (r: DictionaryInfo)
        ensures
            r.name is None && r.copyright is None && r.license is None && r.version is None
                && r.software is None && r.created_date is None,
    {
        DictionaryInfo {
            name: None,
            copyright: None,
            license: None,
            version: None,
            software: None,
            created_date: None,
        }
    }
}

/// The phrases stored under one sequence of syllables.
#[derive(Debug)]
pub struct DictEntry {
    pub syllables: Vec<Syllable>,
    pub phrases: Vec<Phrase>,
}

pub type EntryView = (Seq<Syllable>, Seq<PhraseView>);

pub open spec fn entries_view(v: Seq<DictEntry>) -> Seq<EntryView> {
    v.map_values(|e: DictEntry| (e.syllables@, phrases_view(e.phrases@)))
}

/// The phrases under `key`: those of the last entry with that key, in the
/// order they were stored; none when no entry has it.
pub open spec fn entry_phrases(d: Seq<EntryView>, key: Seq<Syllable>) -> Seq<PhraseView>
    decreases d.len(),
{
    if d.len() == 0 {
        Seq::empty()
    } else if d.last().0 == key {
        d.last().1
    } else {
        entry_phrases(d.drop_last(), key)
    }
}

/// Index of the first phrase with this text, or the length when none has it.
pub open spec fn text_index(ps: Seq<PhraseView>, text: Seq<char>) -> int
    decreases ps.len(),
{
    if ps.len() == 0 {
        0
    } else if ps[0].text == text {
        0
    } else {
        1 + text_index(ps.subrange(1, ps.len() as int), text)
    }
}

pub open spec fn has_text(ps: Seq<PhraseView>, text: Seq<char>) -> bool {
    exists|i: int| 0 <= i < ps.len() && (#[trigger] ps[i]).text == text
}

/// The phrases after an upsert: a phrase with the same text takes the new
/// value in its place, any other text is appended.
pub open spec fn upserted(ps: Seq<PhraseView>, p: PhraseView) -> Seq<PhraseView> {
    let i = text_index(ps, p.text);
    if i < ps.len() {
        ps.update(i, p)
    } else {
        ps.push(p)
    }
}

/// The phrases without any that has this text.
pub open spec fn without_text(ps: Seq<PhraseView>, text: Seq<char>) -> Seq<PhraseView> {
    ps.filter(|p: PhraseView| p.text != text)
}

pub proof fn lemma_text_index(ps: Seq<PhraseView>, text: Seq<char>)
    ensures
        0 <= text_index(ps, text) <= ps.len(),
        text_index(ps, text) < ps.len() ==> ps[text_index(ps, text)].text == text,
        forall|j: int| 0 <= j < text_index(ps, text) ==> (#[trigger] ps[j]).text != text,
        text_index(ps, text) < ps.len() <==> has_text(ps, text),
    decreases ps.len(),
{
    if ps.len() > 0 && ps[0].text != text {
        let rest = ps.subrange(1, ps.len() as int);
        lemma_text_index(rest, text);
        assert forall|j: int| 0 <= j < text_index(ps, text) implies (#[trigger] ps[j]).text
            != text by {
            if j > 0 {
                assert(ps[j] == rest[j - 1]);
            }
        }
        if has_text(ps, text) {
            let k = choose|k: int| 0 <= k < ps.len() && (#[trigger] ps[k]).text == text;
            assert(rest[k - 1] == ps[k]);
        }
        if text_index(ps, text) < ps.len() {
            assert(ps[text_index(ps, text)] == rest[text_index(rest, text)]);
        }
    }
}

/// Index of the first phrase whose text is `text`, or the length.
pub fn find_text(ps: &Vec<Phrase>, text: &String) -> (r: usize)
    ensures
        r as int == text_index(phrases_view(ps@), text@),
{
    let ghost pv = phrases_view(ps@);
    proof {
        lemma_text_index(pv, text@);
    }
    let mut i: usize = 0;
    while i < ps.len()
        invariant
            i <= ps@.len(),
            pv == phrases_view(ps@),
            0 <= text_index(pv, text@) <= pv.len(),
            text_index(pv, text@) < pv.len() ==> pv[text_index(pv, text@)].text == text@,
            forall|j: int| 0 <= j < text_index(pv, text@) ==> (#[trigger] pv[j]).text != text@,
            forall|j: int| 0 <= j < i ==> (#[trigger] pv[j]).text != text@,
        decreases ps@.len() - i,
    {
        if ps[i].text == *text {
            assert(pv[i as int].text == text@);
            return i;
        }
        i = i + 1;
    }
    i
}

/// A dictionary held in memory: each sequence of syllables with its
/// phrases in the order they were stored, and its metadata. A read-only
/// dictionary is never changed through a layered stack.
#[derive(Debug)]
pub struct MemoryDictionary {
    pub entries: Vec<DictEntry>,
    pub info: DictionaryInfo,
    pub read_only: bool,
}

impl View for MemoryDictionary {
    type V = Seq<EntryView>;

    open spec fn view(&self) -> Seq<EntryView> {
        entries_view(self.entries@)
    }
}

/// Index of the last entry with this key, or the number of entries.
pub open spec fn last_key_index(d: Seq<EntryView>, key: Seq<Syllable>) -> int
    decreases d.len(),
{
    if d.len() == 0 {
        0
    } else if d.last().0 == key {
        d.len() - 1
    } else {
        let i = last_key_index(d.drop_last(), key);
        if i == d.len() - 1 {
            d.len() as int
        } else {
            i
        }
    }
}

pub proof fn lemma_last_key_index(d: Seq<EntryView>, key: Seq<Syllable>)
    ensures
        0 <= last_key_index(d, key) <= d.len(),
        last_key_index(d, key) < d.len() ==> d[last_key_index(d, key)].0 == key
            && entry_phrases(d, key) == d[last_key_index(d, key)].1 && forall|j: int|
            last_key_index(d, key) < j < d.len() ==> (#[trigger] d[j]).0 != key,
        last_key_index(d, key) == d.len() ==> entry_phrases(d, key) == Seq::<PhraseView>::empty()
            && forall|j: int| 0 <= j < d.len() ==> (#[trigger] d[j]).0 != key,
    decreases d.len(),
{
    if d.len() > 0 && d.last().0 != key {
        let e = d.drop_last();
        lemma_last_key_index(e, key);
        let i = last_key_index(e, key);
        assert forall|j: int| i < j < d.len() implies (#[trigger] d[j]).0 != key by {
            if j < d.len() - 1 {
                assert(d[j] == e[j]);
            }
        }
        if i < e.len() {
            assert(d[i] == e[i]);
        } else {
            assert forall|j: int| 0 <= j < d.len() implies (#[trigger] d[j]).0 != key by {
                if j < d.len() - 1 {
                    assert(d[j] == e[j]);
                }
            }
        }
    }
}

/// The dictionary after the phrases under the entry `i` became `ps`.
pub proof fn lemma_set_entry(d: Seq<EntryView>, key: Seq<Syllable>, ps: Seq<PhraseView>, other: Seq<Syllable>)
    requires
        last_key_index(d, key) < d.len(),
    ensures
        entry_phrases(d.update(last_key_index(d, key), (key, ps)), key) == ps,
        other != key ==> entry_phrases(d.update(last_key_index(d, key), (key, ps)), other)
            == entry_phrases(d, other),
    decreases d.len(),
{
    let i = last_key_index(d, key);
    let d2 = d.update(i, (key, ps));
    lemma_last_key_index(d, key);
    if i == d.len() - 1 {
        assert(d2.drop_last() =~= d.drop_last());
    } else {
        assert(d.last().0 != key);
        lemma_set_entry(d.drop_last(), key, ps, other);
        assert(d2.drop_last() =~= d.drop_last().update(i, (key, ps)));
    }
}

/// The dictionary after a new entry was appended.
pub proof fn lemma_push_entry(d: Seq<EntryView>, e: EntryView, other: Seq<Syllable>)
    ensures
        entry_phrases(d.push(e), e.0) == e.1,
        other != e.0 ==> entry_phrases(d.push(e), other) == entry_phrases(d, other),
{
    assert(d.push(e).drop_last() =~= d);
}

impl MemoryDictionary {
    pub fn new() -> (r: MemoryDictionary)
        ensures
            r@ == Seq::<EntryView>::empty(),
            !r.read_only,
    {
        MemoryDictionary { entries: Vec::new(), info: DictionaryInfo::empty(), read_only: false }
    }

    /// An empty dictionary with metadata.
    pub fn with_info(info: DictionaryInfo, read_only: bool) -> (r: MemoryDictionary)
        ensures
            r@ == Seq::<EntryView>::empty(),
            r.info == info,
            r.read_only == read_only,
    {
        MemoryDictionary { entries: Vec::new(), info, read_only }
    }

    fn find_entry(&self, syllables: &Vec<Syllable>) -> (r: usize)
        ensures
            r as int == last_key_index(self@, syllables@),
    {
        let ghost d = self@;
        proof {
            lemma_last_key_index(d, syllables@);
        }
        let mut i: usize = self.entries.len();
        let mut found: usize = self.entries.len();
        while i > 0
            invariant
                i <= self.entries@.len(),
                d == self@,
                d.len() == self.entries@.len(),
                0 <= last_key_index(d, syllables@) <= d.len(),
                last_key_index(d, syllables@) < d.len() ==> d[last_key_index(d, syllables@)].0
                    == syllables@ && forall|j: int|
                    last_key_index(d, syllables@) < j < d.len() ==> (#[trigger] d[j]).0
                        != syllables@,
                last_key_index(d, syllables@) == d.len() ==> forall|j: int|
                    0 <= j < d.len() ==> (#[trigger] d[j]).0 != syllables@,
                found <= d.len(),
                found < d.len() ==> found as int == last_key_index(d, syllables@),
                found == d.len() ==> forall|j: int|
                    i <= j < d.len() ==> (#[trigger] d[j]).0 != syllables@,
            decreases i,
        {
            i = i - 1;
            if found == self.entries.len() && same_syllables(&self.entries[i].syllables, syllables) {
                assert(d[i as int].0 == syllables@);
                found = i;
            }
        }
        proof {
            let k = last_key_index(d, syllables@);
            if found == d.len() && k < d.len() {
                assert(d[k].0 != syllables@);
            }
        }
        found
    }

    /// The phrases stored under `syllables`, in the order they were stored.
    pub fn lookup_phrase(&self, syllables: &Vec<Syllable>) -> (r: Vec<Phrase>)
        ensures
            phrases_view(r@) == entry_phrases(self@, syllables@),
    {
        let i = self.find_entry(syllables);
        proof {
            lemma_last_key_index(self@, syllables@);
        }
        if i < self.entries.len() {
            copy_phrases(&self.entries[i].phrases)
        } else {
            Vec::new()
        }
    }

    /// The phrases stored under one syllable.
    pub fn lookup_word(&self, syllable: Syllable) -> (r: Vec<Phrase>)
        ensures
            phrases_view(r@) == entry_phrases(self@, seq![syllable]),
    {
        let key = vec![syllable];
        proof {
            assert(key@ =~= seq![syllable]);
        }
        self.lookup_phrase(&key)
    }

    /// Every stored pair of syllables and phrase, entry by entry.
    pub fn entries(&self) -> (r: Vec<(Vec<Syllable>, Phrase)>)
        ensures
            pairs_view(r@) == flat_entries(self@),
    {
        let mut r: Vec<(Vec<Syllable>, Phrase)> = Vec::new();
        let mut i: usize = 0;
        while i < self.entries.len()
            invariant
                i <= self.entries@.len(),
                pairs_view(r@) == flat_entries(self@.subrange(0, i as int)),
            decreases self.entries@.len() - i,
        {
            let e = &self.entries[i];
            let ghost ev = self@[i as int];
            let ghost start = pairs_view(r@);
            let mut j: usize = 0;
            while j < e.phrases.len()
                invariant
                    j <= e.phrases@.len(),
                    ev == (e.syllables@, phrases_view(e.phrases@)),
                    pairs_view(r@) == start + ev.1.subrange(0, j as int).map_values(
                        |p: PhraseView| (ev.0, p),
                    ),
                decreases e.phrases@.len() - j,
            {
                let ghost before = r@;
                let pair = (copy_syllables(&e.syllables), e.phrases[j].copy());
                proof {
                    assert(pair.1@ == ev.1[j as int]);
                    assert(pair.0@ == ev.0);
                }
                r.push(pair);
                proof {
                    assert(pairs_view(r@) =~= pairs_view(before).push((ev.0, ev.1[j as int])));
                    assert(ev.1.subrange(0, j as int + 1) =~= ev.1.subrange(0, j as int).push(
                        ev.1[j as int],
                    ));
                    assert(pairs_view(r@) =~= start + ev.1.subrange(0, j as int + 1).map_values(
                        |p: PhraseView| (ev.0, p),
                    ));
                }
                j = j + 1;
            }
            proof {
                let s2 = self@.subrange(0, i as int + 1);
                assert(s2.drop_last() =~= self@.subrange(0, i as int));
                assert(ev.1.subrange(0, ev.1.len() as int) =~= ev.1);
            }
            i = i + 1;
        }
        proof {
            assert(self@.subrange(0, self@.len() as int) =~= self@);
        }
        r
    }

    /// The dictionary's metadata.
    pub fn about(&self) -> (r: DictionaryInfo)
        ensures
            r == self.info,
    {
        self.info.copy()
    }

    fn set_phrases(&mut self, syllables: &Vec<Syllable>, phrases: Vec<Phrase>)
        ensures
            final(self).info == old(self).info,
            final(self).read_only == old(self).read_only,
            entry_phrases(final(self)@, syllables@) == phrases_view(phrases@),
            forall|k: Seq<Syllable>|
                k != syllables@ ==> entry_phrases(final(self)@, k) == entry_phrases(old(self)@, k),
    {
        let i = self.find_entry(syllables);
        let ghost d = old(self)@;
        let entry = DictEntry { syllables: copy_syllables(syllables), phrases };
        if i < self.entries.len() {
            self.entries.set(i, entry);
            proof {
                assert(self@ =~= d.update(i as int, (syllables@, phrases_view(phrases@))));
                assert forall|k: Seq<Syllable>| k != syllables@ implies entry_phrases(self@, k)
                    == entry_phrases(d, k) by {
                    lemma_set_entry(d, syllables@, phrases_view(phrases@), k);
                }
                lemma_set_entry(d, syllables@, phrases_view(phrases@), syllables@);
            }
        } else {
            self.entries.push(entry);
            proof {
                assert(self@ =~= d.push((syllables@, phrases_view(phrases@))));
                assert forall|k: Seq<Syllable>| k != syllables@ implies entry_phrases(self@, k)
                    == entry_phrases(d, k) by {
                    lemma_push_entry(d, (syllables@, phrases_view(phrases@)), k);
                }
                lemma_push_entry(d, (syllables@, phrases_view(phrases@)), syllables@);
            }
        }
    }

    /// Stores a new phrase after those under `syllables`; fails when a
    /// phrase with the same text is already there.
    pub fn insert(&mut self, syllables: &Vec<Syllable>, phrase: Phrase) -> (r: Result<
        (),
        DuplicatePhraseError,
    >)
        ensures
            r is Err <==> has_text(entry_phrases(old(self)@, syllables@), phrase.text@),
            r is Ok ==> entry_phrases(final(self)@, syllables@) == entry_phrases(
                old(self)@,
                syllables@,
            ).push(phrase@),
            final(self).info == old(self).info,
            final(self).read_only == old(self).read_only,
            r is Err ==> final(self)@ == old(self)@,
            forall|k: Seq<Syllable>|
                k != syllables@ ==> entry_phrases(final(self)@, k) == entry_phrases(old(self)@, k),
    {
        let mut phrases = self.lookup_phrase(syllables);
        let i = find_text(&phrases, &phrase.text);
        proof {
            lemma_text_index(phrases_view(phrases@), phrase.text@);
        }
        if i < phrases.len() {
            return Err(DuplicatePhraseError { index: i });
        }
        let ghost before = phrases_view(phrases@);
        phrases.push(phrase);
        proof {
            assert(phrases_view(phrases@) =~= before.push(phrase@));
        }
        self.set_phrases(syllables, phrases);
        Ok(())
    }

    /// Stores `phrase` under `syllables` with the user's frequency and time
    /// of use: it replaces a phrase with the same text in place, or comes
    /// after the others.
    pub fn update(
        &mut self,
        syllables: &Vec<Syllable>,
        phrase: Phrase,
        user_freq: u32,
        time: u64,
    ) -> (r: Result<(), DictionaryUpdateError>)
        ensures
            r is Ok,
            final(self).info == old(self).info,
            final(self).read_only == old(self).read_only,
            entry_phrases(final(self)@, syllables@) == upserted(
                entry_phrases(old(self)@, syllables@),
                PhraseView { text: phrase.text@, freq: user_freq, last_used: Some(time) },
            ),
            forall|k: Seq<Syllable>|
                k != syllables@ ==> entry_phrases(final(self)@, k) == entry_phrases(old(self)@, k),
    {
        let mut phrases = self.lookup_phrase(syllables);
        let i = find_text(&phrases, &phrase.text);
        let p = Phrase { text: phrase.text, freq: user_freq, last_used: Some(time) };
        let ghost before = phrases_view(phrases@);
        if i < phrases.len() {
            phrases.set(i, p);
            proof {
                assert(phrases_view(phrases@) =~= before.update(i as int, p@));
            }
        } else {
            phrases.push(p);
            proof {
                assert(phrases_view(phrases@) =~= before.push(p@));
            }
        }
        self.set_phrases(syllables, phrases);
        Ok(())
    }

    /// Removes every phrase with this text from under `syllables`.
    pub fn remove(&mut self, syllables: &Vec<Syllable>, text: &String) -> (r: Result<
        (),
        DictionaryUpdateError,
    >)
        ensures
            r is Ok,
            final(self).info == old(self).info,
            final(self).read_only == old(self).read_only,
            entry_phrases(final(self)@, syllables@) == without_text(
                entry_phrases(old(self)@, syllables@),
                text@,
            ),
            forall|k: Seq<Syllable>|
                k != syllables@ ==> entry_phrases(final(self)@, k) == entry_phrases(old(self)@, k),
    {
        let phrases = self.lookup_phrase(syllables);
        let ghost pv = phrases_view(phrases@);
        let mut kept: Vec<Phrase> = Vec::new();
        let mut i: usize = 0;
        while i < phrases.len()
            invariant
                i <= phrases@.len(),
                pv == phrases_view(phrases@),
                phrases_view(kept@) == without_text(pv.subrange(0, i as int), text@),
            decreases phrases@.len() - i,
        {
            let ghost sub = pv.subrange(0, i as int + 1);
            proof {
                assert(sub.drop_last() =~= pv.subrange(0, i as int));
                reveal(Seq::filter);
            }
            if phrases[i].text != *text {
                kept.push(phrases[i].copy());
            }
            proof {
                assert(phrases_view(kept@) =~= without_text(sub, text@));
            }
            i = i + 1;
        }
        proof {
            assert(pv.subrange(0, pv.len() as int) =~= pv);
        }
        self.set_phrases(syllables, kept);
        Ok(())
    }
}

/// Every stored pair of syllables and phrase, entry by entry.
pub open spec fn flat_entries(d: Seq<EntryView>) -> Seq<(Seq<Syllable>, PhraseView)>
    decreases d.len(),
{
    if d.len() == 0 {
        Seq::empty()
    } else {
        flat_entries(d.drop_last()) + d.last().1.map_values(|p: PhraseView| (d.last().0, p))
    }
}

pub open spec fn pairs_view(v: Seq<(Vec<Syllable>, Phrase)>) -> Seq<(Seq<Syllable>, PhraseView)> {
    v.map_values(|x: (Vec<Syllable>, Phrase)| (x.0@, x.1@))
}

/// Whether two sequences of syllables are equal.
pub fn same_syllables(a: &Vec<Syllable>, b: &Vec<Syllable>) -> (r: bool)
    ensures
        r == (a@ == b@),
{
    if a.len() != b.len() {
        return false;
    }
    let mut i: usize = 0;
    while i < a.len()
        invariant
            i <= a@.len(),
            a@.len() == b@.len(),
            forall|j: int| 0 <= j < i ==> a@[j] == b@[j],
        decreases a@.len() - i,
    {
        if a[i] != b[i] {
            return false;
        }
        i = i + 1;
    }
    proof {
        assert(a@ =~= b@);
    }
    true
}

/// Insertion makes the phrase visible under its syllables; removal of its
/// text makes every phrase with that text disappear from them.
pub proof fn law_insert_remove_lookup(
    before: Seq<PhraseView>,
    p: PhraseView,
    text: Seq<char>,
)
    ensures
        !has_text(before, p.text) ==> before.push(p).contains(p),
        forall|i: int|
            0 <= i < without_text(before, text).len() ==> (#[trigger] without_text(before, text)[i]).text
                != text,
{
    if !has_text(before, p.text) {
        assert(before.push(p)[before.len() as int] == p);
    }
    assert forall|i: int| 0 <= i < without_text(before, text).len() implies (#[trigger] without_text(
        before,
        text,
    )[i]).text != text by {
        let f = |q: PhraseView| q.text != text;
        assert(f(before.filter(f)[i]));
    }
}

} // verus!
