use vstd::prelude::*;

use crate::dictionary::{
    entry_phrases, find_text, has_text, lemma_text_index, phrases_view, text_index, upserted,
    without_text, MemoryDictionary, Phrase, PhraseView,
};
use crate::estimate::{estimated, UserFreqEstimate};
use crate::syllable::Syllable;

verus! {

/// The longest user phrase, in syllables.
pub const MAX_USER_PHRASE_LEN: usize = 11;

/// What learning a phrase did to the user dictionary.
#[derive(Clone, Copy, Debug, PartialEq, Eq, Structural)]
pub enum UserUpdateState {
    /// The phrase is too long to learn.
    Fail,
    /// The syllables had no phrase; this one was added.
    Insert,
    /// The phrase's user frequency and time were updated.
    Modify,
    Ignore,
}

/// The highest frequency among the phrases; 0 for none.
pub open spec fn max_freq_of(ps: Seq<PhraseView>) -> int
    decreases ps.len(),
{
    if ps.len() == 0 {
        0
    } else {
        let m = max_freq_of(ps.drop_last());
        if ps.last().freq as int > m {
            ps.last().freq as int
        } else {
            m
        }
    }
}

pub proof fn lemma_max_freq_bound(ps: Seq<PhraseView>)
    ensures
        0 <= max_freq_of(ps) <= u32::MAX,
    decreases ps.len(),
{
    if ps.len() > 0 {
        lemma_max_freq_bound(ps.drop_last());
    }
}

/// The phrase learned for `text` when the syllables already hold phrases:
/// the stored one with that text, or a new one of frequency 1; its user
/// frequency is estimated from the highest frequency among them.
pub open spec fn learned(ps: Seq<PhraseView>, text: Seq<char>, now: u64) -> PhraseView {
    let i = text_index(ps, text);
    let (freq, last) = if i < ps.len() {
        (
            ps[i].freq as int,
            match ps[i].last_used {
                Some(t) => t,
                None => now,
            },
        )
    } else {
        (1int, now)
    };
    PhraseView {
        text,
        freq: estimated(
            freq,
            max_freq_of(ps),
            if last <= now {
                now - last
            } else {
                0
            },
        ) as u32,
        last_used: Some(now),
    }
}

/// Learns that the user chose `text` for `syllables`: a phrase too long is
/// refused; syllables without phrases get this one with frequency 1;
/// otherwise the phrase with this text takes its estimated user frequency
/// and the current time, in place or after the others.
pub fn user_update_phrase(
    dict: &mut MemoryDictionary,
    estimate: &UserFreqEstimate,
    syllables: &Vec<Syllable>,
    text: &String,
) -> (r: UserUpdateState)
    ensures
        final(dict).info == old(dict).info,
        final(dict).read_only == old(dict).read_only,
        syllables@.len() > MAX_USER_PHRASE_LEN ==> r == UserUpdateState::Fail && final(dict)@ == old(
            dict,
        )@,
        syllables@.len() <= MAX_USER_PHRASE_LEN && entry_phrases(old(dict)@, syllables@).len() == 0
            ==> r == UserUpdateState::Insert && entry_phrases(final(dict)@, syllables@) == seq![
            PhraseView { text: text@, freq: 1, last_used: None },
        ],
        syllables@.len() <= MAX_USER_PHRASE_LEN && entry_phrases(old(dict)@, syllables@).len() > 0
            ==> r == UserUpdateState::Modify && entry_phrases(final(dict)@, syllables@) == upserted(
            entry_phrases(old(dict)@, syllables@),
            learned(entry_phrases(old(dict)@, syllables@), text@, estimate.now),
        ),
        r != UserUpdateState::Fail ==> forall|k: Seq<Syllable>|
            k != syllables@ ==> entry_phrases(final(dict)@, k) == entry_phrases(old(dict)@, k),
{
    if syllables.len() > MAX_USER_PHRASE_LEN {
        return UserUpdateState::Fail;
    }
    let phrases = dict.lookup_phrase(syllables);
    let ghost pv = phrases_view(phrases@);
    if phrases.len() == 0 {
        let _ = dict.insert(syllables, Phrase::new(text.clone(), 1));
        proof {
            assert(pv.push(PhraseView { text: text@, freq: 1, last_used: None }) =~= seq![
                PhraseView { text: text@, freq: 1, last_used: None },
            ]);
        }
        return UserUpdateState::Insert;
    }
    let mut max_freq: u32 = 0;
    let mut k: usize = 0;
    while k < phrases.len()
        invariant
            k <= phrases@.len(),
            pv == phrases_view(phrases@),
            max_freq as int == max_freq_of(pv.subrange(0, k as int)),
        decreases phrases@.len() - k,
    {
        proof {
            assert(pv.subrange(0, k as int + 1).drop_last() =~= pv.subrange(0, k as int));
        }
        if phrases[k].freq > max_freq {
            max_freq = phrases[k].freq;
        }
        k = k + 1;
    }
    proof {
        assert(pv.subrange(0, pv.len() as int) =~= pv);
        lemma_max_freq_bound(pv);
        lemma_text_index(pv, text@);
    }
    let now = estimate.now();
    let i = find_text(&phrases, text);
    let (freq, last) = if i < phrases.len() {
        (
            phrases[i].freq,
            match phrases[i].last_used {
                Some(t) => t,
                None => now,
            },
        )
    } else {
        (1, now)
    };
    let user_freq = estimate.estimate(freq, max_freq, last);
    let _ = dict.update(syllables, Phrase::new(text.clone(), freq), user_freq, now);
    UserUpdateState::Modify
}

/// Removes the phrase with this text from `syllables`, and tells whether
/// there was one.
pub fn user_remove_phrase(dict: &mut MemoryDictionary, syllables: &Vec<Syllable>, text: &String) -> (r: bool)
    ensures
        r == has_text(entry_phrases(old(dict)@, syllables@), text@),
        entry_phrases(final(dict)@, syllables@) == without_text(
            entry_phrases(old(dict)@, syllables@),
            text@,
        ),
        forall|k: Seq<Syllable>|
            k != syllables@ ==> entry_phrases(final(dict)@, k) == entry_phrases(old(dict)@, k),
{
    let phrases = dict.lookup_phrase(syllables);
    let i = find_text(&phrases, text);
    proof {
        lemma_text_index(phrases_view(phrases@), text@);
    }
    let _ = dict.remove(syllables, text);
    i < phrases.len()
}

} // verus!
