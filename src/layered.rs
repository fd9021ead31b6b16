use vstd::prelude::*;

use crate::dictionary::{
    find_text, has_text, lemma_text_index, phrases_view, text_index, upserted,
    without_text, DictionaryInfo, DictionaryUpdateError, DuplicatePhraseError, EntryView, MemoryDictionary, Phrase,
    PhraseView, entry_phrases,
};
use crate::syllable::Syllable;
use vstd::string::StringExecFns;

verus! {

/// A set of phrase texts that must never come out of a lookup.
#[derive(Debug)]
pub struct BlockList {
    pub texts: Vec<String>,
}

impl View for BlockList {
    type V = Seq<Seq<char>>;

    open spec fn view(&self) -> Seq<Seq<char>> {
        self.texts@.map_values(|t: String| t@)
    }
}

impl BlockList {
    pub fn new(texts: Vec<String>) -> (r: BlockList)
        ensures
            r.texts@ == texts@,
    {
        BlockList { texts }
    }

    /// Whether the list holds this text.
    pub fn is_blocked(&self, text: &String) -> (r: bool)
        ensures
            r == self@.contains(text@),
    {
        let mut i: usize = 0;
        while i < self.texts.len()
            invariant
                i <= self.texts@.len(),
                forall|j: int| 0 <= j < i ==> self@[j] != text@,
            decreases self.texts@.len() - i,
        {
            if self.texts[i] == *text {
                assert(self@[i as int] == text@);
                return true;
            }
            i = i + 1;
        }
        false
    }
}

/// Some block list holds the text.
pub open spec fn blocked(blocks: Seq<Seq<Seq<char>>>, text: Seq<char>) -> bool {
    exists|i: int| 0 <= i < blocks.len() && (#[trigger] blocks[i]).contains(text)
}

/// The working list after merging the phrases of an upper layer, one by
/// one: each replaces the entry with its text in place, or is appended.
pub open spec fn merged(w: Seq<PhraseView>, qs: Seq<PhraseView>) -> Seq<PhraseView>
    decreases qs.len(),
{
    if qs.len() == 0 {
        w
    } else {
        upserted(merged(w, qs.drop_last()), qs.last())
    }
}

/// The phrases of a stack of layers under a key, before block lists: those
/// of the base, with each upper layer merged on top in order.
pub open spec fn stacked(layers: Seq<Seq<EntryView>>, key: Seq<Syllable>) -> Seq<PhraseView>
    decreases layers.len(),
{
    if layers.len() == 0 {
        Seq::empty()
    } else if layers.len() == 1 {
        entry_phrases(layers[0], key)
    } else {
        merged(stacked(layers.drop_last(), key), entry_phrases(layers.last(), key))
    }
}

/// What a layered lookup returns: the stacked phrases whose text no block
/// list holds.
pub open spec fn layered_lookup(
    layers: Seq<Seq<EntryView>>,
    blocks: Seq<Seq<Seq<char>>>,
    key: Seq<Syllable>,
) -> Seq<PhraseView> {
    stacked(layers, key).filter(|p: PhraseView| !blocked(blocks, p.text))
}

/// An ordered stack of dictionaries, base first, queried as one, and block
/// lists that hide phrases.
#[derive(Debug)]
pub struct LayeredDictionary {
    pub layers: Vec<MemoryDictionary>,
    pub blocklists: Vec<BlockList>,
}

impl LayeredDictionary {
    pub open spec fn layers_view(&self) -> Seq<Seq<EntryView>> {
        self.layers@.map_values(|d: MemoryDictionary| d@)
    }

    pub open spec fn blocks_view(&self) -> Seq<Seq<Seq<char>>> {
        self.blocklists@.map_values(|b: BlockList| b@)
    }

    pub fn new(layers: Vec<MemoryDictionary>, blocklists: Vec<BlockList>) -> (r: LayeredDictionary)
        ensures
            r.layers@ == layers@,
            r.blocklists@ == blocklists@,
    {
        LayeredDictionary { layers, blocklists }
    }

    fn is_blocked(&self, text: &String) -> (r: bool)
        ensures
            r == blocked(self.blocks_view(), text@),
    {
        let ghost bv = self.blocks_view();
        let mut i: usize = 0;
        while i < self.blocklists.len()
            invariant
                i <= self.blocklists@.len(),
                bv == self.blocks_view(),
                forall|j: int| 0 <= j < i ==> !(#[trigger] bv[j]).contains(text@),
            decreases self.blocklists@.len() - i,
        {
            if self.blocklists[i].is_blocked(text) {
                assert(bv[i as int].contains(text@));
                return true;
            }
            i = i + 1;
        }
        false
    }

    /// The phrases under `syllables`: the base layer's in its order, each
    /// upper layer's phrase replacing the one with its text in place or
    /// coming after, and none whose text a block list holds.
    pub fn lookup_phrase(&self, syllables: &Vec<Syllable>) -> (r: Vec<Phrase>)
        ensures
            phrases_view(r@) == layered_lookup(self.layers_view(), self.blocks_view(), syllables@),
    {
        let ghost lv = self.layers_view();
        let ghost key = syllables@;
        if self.layers.len() == 0 {
            let r: Vec<Phrase> = Vec::new();
            proof {
                assert(phrases_view(r@) =~= layered_lookup(lv, self.blocks_view(), key));
            }
            return r;
        }
        let mut w = self.layers[0].lookup_phrase(syllables);
        proof {
            assert(lv.subrange(0, 1).len() == 1);
            assert(lv.subrange(0, 1)[0] == lv[0]);
        }
        let mut l: usize = 1;
        while l < self.layers.len()
            invariant
                1 <= l <= self.layers@.len(),
                lv == self.layers_view(),
                key == syllables@,
                phrases_view(w@) == stacked(lv.subrange(0, l as int), key),
            decreases self.layers@.len() - l,
        {
            let upper = self.layers[l].lookup_phrase(syllables);
            let ghost base = phrases_view(w@);
            let ghost uv = phrases_view(upper@);
            let mut j: usize = 0;
            while j < upper.len()
                invariant
                    j <= upper@.len(),
                    uv == phrases_view(upper@),
                    phrases_view(w@) == merged(base, uv.subrange(0, j as int)),
                decreases upper@.len() - j,
            {
                let ghost before = phrases_view(w@);
                let i = find_text(&w, &upper[j].text);
                proof {
                    lemma_text_index(before, uv[j as int].text);
                    assert(uv.subrange(0, j as int + 1).drop_last() =~= uv.subrange(0, j as int));
                }
                if i < w.len() {
                    w.set(i, upper[j].copy());
                    proof {
                        assert(phrases_view(w@) =~= before.update(i as int, uv[j as int]));
                    }
                } else {
                    w.push(upper[j].copy());
                    proof {
                        assert(phrases_view(w@) =~= before.push(uv[j as int]));
                    }
                }
                j = j + 1;
            }
            proof {
                assert(uv.subrange(0, uv.len() as int) =~= uv);
                let s = lv.subrange(0, l as int + 1);
                assert(s.drop_last() =~= lv.subrange(0, l as int));
                assert(s.last() == lv[l as int]);
            }
            l = l + 1;
        }
        proof {
            assert(lv.subrange(0, lv.len() as int) =~= lv);
        }
        let ghost all = phrases_view(w@);
        let ghost bv = self.blocks_view();
        let mut r: Vec<Phrase> = Vec::new();
        let mut k: usize = 0;
        while k < w.len()
            invariant
                k <= w@.len(),
                all == phrases_view(w@),
                bv == self.blocks_view(),
                phrases_view(r@) == all.subrange(0, k as int).filter(
                    |p: PhraseView| !blocked(bv, p.text),
                ),
            decreases w@.len() - k,
        {
            proof {
                let s = all.subrange(0, k as int + 1);
                assert(s.drop_last() =~= all.subrange(0, k as int));
                reveal(Seq::filter);
            }
            if !self.is_blocked(&w[k].text) {
                r.push(w[k].copy());
            }
            proof {
                let s = all.subrange(0, k as int + 1);
                assert(phrases_view(r@) =~= s.filter(|p: PhraseView| !blocked(bv, p.text)));
            }
            k = k + 1;
        }
        proof {
            assert(all.subrange(0, all.len() as int) =~= all);
        }
        r
    }

    /// Metadata naming the stack itself.
    pub fn about(&self) -> (r: DictionaryInfo)
        ensures
            r.name matches Some(n) && n@ == "Built-in LayeredDictionary"@,
            r.copyright is None && r.license is None && r.version is None && r.software is None
                && r.created_date is None,
    {
        let mut info = DictionaryInfo::empty();
        info.name = Some(String::from_str("Built-in LayeredDictionary"));
        info
    }

    /// The phrases under one syllable.
    pub fn lookup_word(&self, syllable: Syllable) -> (r: Vec<Phrase>)
        ensures
            phrases_view(r@) == layered_lookup(
                self.layers_view(),
                self.blocks_view(),
                seq![syllable],
            ),
    {
        let key = vec![syllable];
        proof {
            assert(key@ =~= seq![syllable]);
        }
        self.lookup_phrase(&key)
    }

    /// Inserts the phrase into every writable layer in order, stopping at
    /// the first one that already holds its text.
    pub fn insert(&mut self, syllables: &Vec<Syllable>, phrase: Phrase) -> (r: Result<
        (),
        DuplicatePhraseError,
    >)
        ensures
            final(self).layers@.len() == old(self).layers@.len(),
            final(self).blocklists@ == old(self).blocklists@,
            r is Ok <==> forall|i: int|
                0 <= i < old(self).layers@.len() && !old(self).layers@[i].read_only ==> !has_text(
                    entry_phrases(#[trigger] old(self).layers_view()[i], syllables@),
                    phrase.text@,
                ),
            r is Ok ==> forall|i: int|
                0 <= i < old(self).layers@.len() ==> entry_phrases(
                    #[trigger] final(self).layers_view()[i],
                    syllables@,
                ) == if old(self).layers@[i].read_only {
                    entry_phrases(old(self).layers_view()[i], syllables@)
                } else {
                    entry_phrases(old(self).layers_view()[i], syllables@).push(phrase@)
                },
    {
        let ghost ov = old(self).layers_view();
        let mut i: usize = 0;
        while i < self.layers.len()
            invariant
                i <= self.layers@.len(),
                self.layers@.len() == ov.len(),
                self.blocklists@ == old(self).blocklists@,
                ov == old(self).layers_view(),
                forall|j: int|
                    0 <= j < i && !old(self).layers@[j].read_only ==> !has_text(
                        entry_phrases(#[trigger] ov[j], syllables@),
                        phrase.text@,
                    ),
                forall|j: int|
                    0 <= j < i ==> entry_phrases(#[trigger] self.layers_view()[j], syllables@)
                        == if old(self).layers@[j].read_only {
                        entry_phrases(ov[j], syllables@)
                    } else {
                        entry_phrases(ov[j], syllables@).push(phrase@)
                    },
                forall|j: int|
                    0 <= j < ov.len() ==> (#[trigger] self.layers@[j]).read_only == old(
                        self,
                    ).layers@[j].read_only,
                forall|j: int| i <= j < ov.len() ==> (#[trigger] self.layers_view()[j]) == ov[j],
            decreases self.layers@.len() - i,
        {
            if self.layers[i].read_only {
                i = i + 1;
                continue;
            }
            let ghost before = self.layers_view();
            let ghost flags = self.layers@;
            let mut layer = MemoryDictionary::new();
            self.layers.set_and_swap(i, &mut layer);
            proof {
                assert(layer@ == before[i as int]);
                assert(before[i as int] == ov[i as int]);
            }
            let copy = Phrase { text: phrase.text.clone(), freq: phrase.freq, last_used: phrase.last_used };
            let res = layer.insert(syllables, copy);
            let ghost lview = layer@;
            self.layers.set_and_swap(i, &mut layer);
            match res {
                Err(e) => {
                    proof {
                        assert(has_text(entry_phrases(ov[i as int], syllables@), phrase.text@));
                    }
                    return Err(e);
                },
                Ok(()) => {},
            }
            proof {
                assert(self.layers_view() =~= before.update(i as int, lview));
                assert(self.layers@ =~= flags.update(i as int, self.layers@[i as int]));
            }
            i = i + 1;
        }
        Ok(())
    }

    /// Upserts the phrase with the user's frequency and time in every layer.
    pub fn update(
        &mut self,
        syllables: &Vec<Syllable>,
        phrase: Phrase,
        user_freq: u32,
        time: u64,
    ) -> (r: Result<(), DictionaryUpdateError>)
        ensures
            r is Ok,
            final(self).layers@.len() == old(self).layers@.len(),
            final(self).blocklists@ == old(self).blocklists@,
            forall|i: int|
                0 <= i < old(self).layers@.len() ==> entry_phrases(
                    #[trigger] final(self).layers_view()[i],
                    syllables@,
                ) == if old(self).layers@[i].read_only {
                    entry_phrases(old(self).layers_view()[i], syllables@)
                } else {
                    upserted(
                        entry_phrases(old(self).layers_view()[i], syllables@),
                        PhraseView { text: phrase.text@, freq: user_freq, last_used: Some(time) },
                    )
                },
    {
        let ghost ov = old(self).layers_view();
        let ghost pv = PhraseView { text: phrase.text@, freq: user_freq, last_used: Some(time) };
        let mut i: usize = 0;
        while i < self.layers.len()
            invariant
                i <= self.layers@.len(),
                self.layers@.len() == ov.len(),
                self.blocklists@ == old(self).blocklists@,
                ov == old(self).layers_view(),
                pv == (PhraseView { text: phrase.text@, freq: user_freq, last_used: Some(time) }),
                forall|j: int|
                    0 <= j < i ==> entry_phrases(#[trigger] self.layers_view()[j], syllables@)
                        == if old(self).layers@[j].read_only {
                        entry_phrases(ov[j], syllables@)
                    } else {
                        upserted(entry_phrases(ov[j], syllables@), pv)
                    },
                forall|j: int|
                    0 <= j < ov.len() ==> (#[trigger] self.layers@[j]).read_only == old(
                        self,
                    ).layers@[j].read_only,
                forall|j: int| i <= j < ov.len() ==> (#[trigger] self.layers_view()[j]) == ov[j],
            decreases self.layers@.len() - i,
        {
            if self.layers[i].read_only {
                i = i + 1;
                continue;
            }
            let ghost before = self.layers_view();
            let ghost flags = self.layers@;
            let mut layer = MemoryDictionary::new();
            self.layers.set_and_swap(i, &mut layer);
            proof {
                assert(layer@ == before[i as int]);
                assert(before[i as int] == ov[i as int]);
            }
            let copy = Phrase { text: phrase.text.clone(), freq: phrase.freq, last_used: phrase.last_used };
            let _ = layer.update(syllables, copy, user_freq, time);
            let ghost lview = layer@;
            self.layers.set_and_swap(i, &mut layer);
            proof {
                assert(self.layers_view() =~= before.update(i as int, lview));
                assert(self.layers@ =~= flags.update(i as int, self.layers@[i as int]));
            }
            i = i + 1;
        }
        Ok(())
    }

    /// Removes the phrases with this text from every layer.
    pub fn remove(&mut self, syllables: &Vec<Syllable>, text: &String) -> (r: Result<
        (),
        DictionaryUpdateError,
    >)
        ensures
            r is Ok,
            final(self).layers@.len() == old(self).layers@.len(),
            final(self).blocklists@ == old(self).blocklists@,
            forall|i: int|
                0 <= i < old(self).layers@.len() ==> entry_phrases(
                    #[trigger] final(self).layers_view()[i],
                    syllables@,
                ) == if old(self).layers@[i].read_only {
                    entry_phrases(old(self).layers_view()[i], syllables@)
                } else {
                    without_text(entry_phrases(old(self).layers_view()[i], syllables@), text@)
                },
    {
        let ghost ov = old(self).layers_view();
        let mut i: usize = 0;
        while i < self.layers.len()
            invariant
                i <= self.layers@.len(),
                self.layers@.len() == ov.len(),
                self.blocklists@ == old(self).blocklists@,
                ov == old(self).layers_view(),
                forall|j: int|
                    0 <= j < i ==> entry_phrases(#[trigger] self.layers_view()[j], syllables@)
                        == if old(self).layers@[j].read_only {
                        entry_phrases(ov[j], syllables@)
                    } else {
                        without_text(entry_phrases(ov[j], syllables@), text@)
                    },
                forall|j: int|
                    0 <= j < ov.len() ==> (#[trigger] self.layers@[j]).read_only == old(
                        self,
                    ).layers@[j].read_only,
                forall|j: int| i <= j < ov.len() ==> (#[trigger] self.layers_view()[j]) == ov[j],
            decreases self.layers@.len() - i,
        {
            if self.layers[i].read_only {
                i = i + 1;
                continue;
            }
            let ghost before = self.layers_view();
            let ghost flags = self.layers@;
            let mut layer = MemoryDictionary::new();
            self.layers.set_and_swap(i, &mut layer);
            proof {
                assert(layer@ == before[i as int]);
                assert(before[i as int] == ov[i as int]);
            }
            let _ = layer.remove(syllables, text);
            let ghost lview = layer@;
            self.layers.set_and_swap(i, &mut layer);
            proof {
                assert(self.layers_view() =~= before.update(i as int, lview));
                assert(self.layers@ =~= flags.update(i as int, self.layers@[i as int]));
            }
            i = i + 1;
        }
        Ok(())
    }
}

/// Merging keeps the length from shrinking and the text at every position.
pub proof fn lemma_merged_keeps_texts(w: Seq<PhraseView>, qs: Seq<PhraseView>)
    ensures
        merged(w, qs).len() >= w.len(),
        forall|k: int| 0 <= k < w.len() ==> (#[trigger] merged(w, qs)[k]).text == w[k].text,
    decreases qs.len(),
{
    if qs.len() > 0 {
        let m = merged(w, qs.drop_last());
        lemma_merged_keeps_texts(w, qs.drop_last());
        lemma_text_index(m, qs.last().text);
        assert forall|k: int| 0 <= k < w.len() implies (#[trigger] merged(w, qs)[k]).text
            == w[k].text by {
            assert(m[k].text == w[k].text);
        }
    }
}

/// Layered precedence: when the base holds a phrase whose text the upper
/// layer also returns, the merged list holds the upper layer's phrase (the
/// last one with that text) at the base phrase's position.
pub proof fn law_layered_precedence(
    base: Seq<PhraseView>,
    upper: Seq<PhraseView>,
    i: int,
    j: int,
)
    requires
        0 <= i < base.len(),
        forall|k: int| 0 <= k < i ==> (#[trigger] base[k]).text != base[i].text,
        0 <= j < upper.len(),
        upper[j].text == base[i].text,
        forall|k: int| j < k < upper.len() ==> (#[trigger] upper[k]).text != base[i].text,
    ensures
        merged(base, upper)[i] == upper[j],
    decreases upper.len(),
{
    let t = base[i].text;
    let m = merged(base, upper.drop_last());
    lemma_merged_keeps_texts(base, upper.drop_last());
    lemma_text_index(m, upper.last().text);
    if j == upper.len() - 1 {
        // the first entry with text `t` in `m` is at `i`: texts before `i`
        // are those of the base
        assert forall|k: int| 0 <= k < i implies (#[trigger] m[k]).text != t by {
            assert(m[k].text == base[k].text);
        }
        assert(m[i].text == t);
        assert(text_index(m, t) == i) by {
            if text_index(m, t) < i {
                assert(m[text_index(m, t)].text == t);
            }
        }
    } else {
        law_layered_precedence(base, upper.drop_last(), i, j);
        let u = upper.last();
        assert(u.text != t);
        if text_index(m, u.text) < m.len() {
            assert(m[text_index(m, u.text)].text == u.text);
            assert(text_index(m, u.text) != i);
        }
    }
}

/// Block list: no phrase of a layered lookup has a text that a block list
/// holds.
pub proof fn law_block_list(
    layers: Seq<Seq<EntryView>>,
    blocks: Seq<Seq<Seq<char>>>,
    key: Seq<Syllable>,
    k: int,
)
    requires
        0 <= k < layered_lookup(layers, blocks, key).len(),
    ensures
        !blocked(blocks, layered_lookup(layers, blocks, key)[k].text),
{
    let f = |p: PhraseView| !blocked(blocks, p.text);
    assert(f(stacked(layers, key).filter(f)[k]));
}

/// A base and one upper layer stack as the base's phrases with the upper
/// layer's merged on top.
pub proof fn lemma_two_layers(base: Seq<EntryView>, upper: Seq<EntryView>, key: Seq<Syllable>)
    ensures
        stacked(seq![base, upper], key) == merged(entry_phrases(base, key), entry_phrases(upper, key)),
{
    let s = seq![base, upper];
    assert(s.drop_last() =~= seq![base]);
    assert(s.drop_last()[0] == base);
    assert(s.last() == upper);
    assert(stacked(s.drop_last(), key) == entry_phrases(base, key));
}

} // verus!
