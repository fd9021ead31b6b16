use vstd::prelude::*;

use crate::dictionary::{phrases_view, EntryView, Phrase, PhraseView};
use vstd::string::StrSliceExecFns;
use crate::layered::{layered_lookup, LayeredDictionary};
use crate::syllable::{render, Syllable};

verus! {

/// A half-open span `[start, end)` of syllable positions with its text.
#[derive(Debug, PartialEq, Eq)]
pub struct Interval {
    pub start: usize,
    pub end: usize,
    pub phrase: String,
}

impl Interval {
    /// Whether `other` lies within this interval.
    pub fn contains(&self, other: &Interval) -> (r: bool)
        ensures
            r == (self.start <= other.start && self.end >= other.end),
    {
        self.start <= other.start && self.end >= other.end
    }

    pub fn len(&self) -> (r: usize)
        requires
            self.start <= self.end,
        ensures
            r == self.end - self.start,
    {
        self.end - self.start
    }
}

/// A position that no phrase may span across.
#[derive(Debug, Clone, Copy, PartialEq, Eq, Structural)]
pub struct Break(pub usize);

/// Syllables to convert, with the intervals the user fixed and the break
/// positions.
#[derive(Debug)]
pub struct ChineseSequence {
    pub syllables: Vec<Syllable>,
    pub selections: Vec<Interval>,
    pub breaks: Vec<Break>,
}

/// A fixed interval as plain values.
pub struct Selection {
    pub start: int,
    pub end: int,
    pub text: Seq<char>,
}

/// Everything a conversion depends on, as plain values.
pub struct Problem {
    pub layers: Seq<Seq<EntryView>>,
    pub blocks: Seq<Seq<Seq<char>>>,
    pub syllables: Seq<Syllable>,
    pub selections: Seq<Selection>,
    pub breaks: Seq<usize>,
}

pub open spec fn selections_view(v: Seq<Interval>) -> Seq<Selection> {
    v.map_values(
        |s: Interval| Selection { start: s.start as int, end: s.end as int, text: s.phrase@ },
    )
}

pub open spec fn breaks_view(v: Seq<Break>) -> Seq<usize> {
    v.map_values(|b: Break| b.0)
}

pub open spec fn problem_of(dict: &LayeredDictionary, seq: &ChineseSequence) -> Problem {
    Problem {
        layers: dict.layers_view(),
        blocks: dict.blocks_view(),
        syllables: seq.syllables@,
        selections: selections_view(seq.selections@),
        breaks: breaks_view(seq.breaks@),
    }
}

/// Some break lies strictly inside `[i, j)`.
pub open spec fn crosses_break(breaks: Seq<usize>, i: int, j: int) -> bool {
    exists|k: int| 0 <= k < breaks.len() && i < #[trigger] breaks[k] < j
}

/// A phrase for `[i, j)` agrees with every selection inside `[i, j)`: its
/// characters at the selection's positions are the selection's text.
pub open spec fn agrees_with_selections(sels: Seq<Selection>, i: int, j: int, text: Seq<char>) -> bool {
    forall|k: int|
        0 <= k < sels.len() && i <= (#[trigger] sels[k]).start && j >= sels[k].end ==> {
            &&& 0 <= sels[k].start - i
            &&& sels[k].start <= sels[k].end
            &&& sels[k].end - i <= text.len()
            &&& text.subrange(sels[k].start - i, sels[k].end - i) == sels[k].text
        }
}

/// The phrase with the highest frequency; the first of equals.
pub open spec fn best_of(ps: Seq<PhraseView>) -> Option<PhraseView>
    decreases ps.len(),
{
    if ps.len() == 0 {
        None
    } else {
        match best_of(ps.drop_last()) {
            None => Some(ps.last()),
            Some(b) => if ps.last().freq > b.freq {
                Some(ps.last())
            } else {
                Some(b)
            },
        }
    }
}

/// The dictionary's phrases for `[i, j)` that agree with the selections.
pub open spec fn fitting(p: Problem, i: int, j: int) -> Seq<PhraseView> {
    layered_lookup(p.layers, p.blocks, p.syllables.subrange(i, j)).filter(
        |q: PhraseView| agrees_with_selections(p.selections, i, j, q.text),
    )
}

/// The phrase chosen for `[i, j)`: none across a break; else the best
/// fitting phrase; a single syllable with no fitting phrase is written in
/// bopomofo, with frequency 0.
pub open spec fn candidate(p: Problem, i: int, j: int) -> Option<PhraseView> {
    if crosses_break(p.breaks, i, j) {
        None
    } else if best_of(fitting(p, i, j)) is Some {
        best_of(fitting(p, i, j))
    } else if j == i + 1 {
        Some(PhraseView { text: render(p.syllables[i]), freq: 0, last_used: None })
    } else {
        None
    }
}

/// All covers of `[t, n)` by candidate spans, in lexicographic order; the
/// first span of each starts at `t` and ends at `e` or later.
pub open spec fn covers_from(p: Problem, t: int, e: int) -> Seq<Seq<(usize, usize)>>
    decreases p.syllables.len() - t, p.syllables.len() + 1 - e,
{
    let n = p.syllables.len() as int;
    if t >= n {
        seq![Seq::empty()]
    } else if e > n || e <= t {
        Seq::empty()
    } else {
        let first = if candidate(p, t, e) is Some {
            covers_from(p, e, e + 1).map_values(
                |c: Seq<(usize, usize)>| seq![(t as usize, e as usize)] + c,
            )
        } else {
            Seq::empty()
        };
        first + covers_from(p, t, e + 1)
    }
}

/// Every complete cover of the syllables, in lexicographic order.
pub open spec fn all_covers(p: Problem) -> Seq<Seq<(usize, usize)>> {
    covers_from(p, 0, 1)
}

/// The score of one span: its length times the larger of 1 and its
/// frequency, a single syllable's frequency divided by 512.
pub open spec fn span_score(p: Problem, s: int, e: int) -> int {
    let f = match candidate(p, s, e) {
        Some(q) => q.freq as int,
        None => 0,
    };
    let r = if e - s == 1 {
        512
    } else {
        1
    };
    (e - s) * (if f / r > 1 {
        f / r
    } else {
        1
    })
}

pub open spec fn cover_score(p: Problem, c: Seq<(usize, usize)>) -> int
    decreases c.len(),
{
    if c.len() == 0 {
        0
    } else {
        cover_score(p, c.drop_last()) + span_score(p, c.last().0 as int, c.last().1 as int)
    }
}

/// Puts a cover after every cover of at least its score.
pub open spec fn insert_ranked(p: Problem, ranked: Seq<Seq<(usize, usize)>>, c: Seq<(usize, usize)>) -> Seq<Seq<(usize, usize)>>
    decreases ranked.len(),
{
    if ranked.len() == 0 {
        seq![c]
    } else if cover_score(p, ranked.last()) >= cover_score(p, c) {
        ranked.push(c)
    } else {
        insert_ranked(p, ranked.drop_last(), c).push(ranked.last())
    }
}

/// Covers by descending score, covers of equal score in the order given.
pub open spec fn rank(p: Problem, cs: Seq<Seq<(usize, usize)>>) -> Seq<Seq<(usize, usize)>>
    decreases cs.len(),
{
    if cs.len() == 0 {
        Seq::empty()
    } else {
        insert_ranked(p, rank(p, cs.drop_last()), cs.last())
    }
}

/// Every complete cover by descending score, ties in lexicographic order.
pub open spec fn ranked_covers(p: Problem) -> Seq<Seq<(usize, usize)>> {
    rank(p, all_covers(p))
}

/// The text of the candidate of a span.
pub open spec fn span_text(p: Problem, s: int, e: int) -> Seq<char> {
    match candidate(p, s, e) {
        Some(q) => q.text,
        None => Seq::empty(),
    }
}

/// The intervals of a cover, as (start, end, text).
pub open spec fn cover_intervals(p: Problem, c: Seq<(usize, usize)>) -> Seq<(usize, usize, Seq<char>)> {
    c.map_values(|x: (usize, usize)| (x.0, x.1, span_text(p, x.0 as int, x.1 as int)))
}

pub open spec fn intervals_view(v: Seq<Interval>) -> Seq<(usize, usize, Seq<char>)> {
    v.map_values(|i: Interval| (i.start, i.end, i.phrase@))
}

/// The result of a conversion that asks for the `next`-th alternative.
pub open spec fn conversion(p: Problem, next: int) -> Seq<(usize, usize, Seq<char>)> {
    let rc = ranked_covers(p);
    cover_intervals(p, rc[next % (rc.len() as int)])
}

pub open spec fn opt_view(o: Option<Phrase>) -> Option<PhraseView> {
    match o {
        Some(q) => Some(q@),
        None => None,
    }
}

/// Whether a cover tiles `[t, n)`: consecutive non-empty spans from `t`
/// to `n`.
pub open spec fn tiles(c: Seq<(usize, usize)>, t: int, n: int) -> bool
    decreases c.len(),
{
    if c.len() == 0 {
        t == n
    } else {
        c.last().1 == n && (c.last().0 as int) < n && tiles(c.drop_last(), t, c.last().0 as int)
    }
}

/// Every span of the cover has a candidate.
pub open spec fn spans_have_candidates(p: Problem, c: Seq<(usize, usize)>) -> bool {
    forall|k: int| 0 <= k < c.len() ==> (candidate(p, (#[trigger] c[k]).0 as int, c[k].1 as int) is Some)
}

pub proof fn lemma_tiles_prepend(c: Seq<(usize, usize)>, t: int, e: int, n: int)
    requires
        tiles(c, e, n),
        0 <= t < e,
        e <= usize::MAX,
    ensures
        tiles(seq![(t as usize, e as usize)] + c, t, n),
    decreases c.len(),
{
    let d = seq![(t as usize, e as usize)] + c;
    if c.len() == 0 {
        assert(d.drop_last() =~= Seq::<(usize, usize)>::empty());
        assert(tiles(d.drop_last(), t, t));
    } else {
        lemma_tiles_prepend(c.drop_last(), t, e, c.last().0 as int);
        assert(d.drop_last() =~= seq![(t as usize, e as usize)] + c.drop_last());
        assert(d.last() == c.last());
    }
}

/// Every cover that `covers_from` lists tiles `[t, n)` with spans that
/// have candidates, and its first span ends at `e` or later.
pub proof fn lemma_covers_tile(p: Problem, t: int, e: int, k: int)
    requires
        0 <= t <= p.syllables.len(),
        p.syllables.len() <= usize::MAX,
        0 <= k < covers_from(p, t, e).len(),
    ensures
        tiles(covers_from(p, t, e)[k], t, p.syllables.len() as int),
        spans_have_candidates(p, covers_from(p, t, e)[k]),
        t < p.syllables.len() ==> covers_from(p, t, e)[k].len() > 0 && covers_from(p, t, e)[k][0].0
            == t && covers_from(p, t, e)[k][0].1 >= e,
    decreases p.syllables.len() - t, p.syllables.len() + 1 - e,
{
    let n = p.syllables.len() as int;
    if t >= n {
        assert(covers_from(p, t, e)[k] == Seq::<(usize, usize)>::empty());
    } else if e > n || e <= t {
    } else {
        let rest = covers_from(p, e, e + 1);
        let first = if candidate(p, t, e) is Some {
            rest.map_values(|c: Seq<(usize, usize)>| seq![(t as usize, e as usize)] + c)
        } else {
            Seq::empty()
        };
        assert(covers_from(p, t, e) == first + covers_from(p, t, e + 1));
        if k < first.len() {
            lemma_covers_tile(p, e, e + 1, k);
            let c = rest[k];
            lemma_tiles_prepend(c, t, e, n);
            let d = seq![(t as usize, e as usize)] + c;
            assert(first[k] == d);
            assert forall|m: int| 0 <= m < d.len() implies (candidate(
                p,
                (#[trigger] d[m]).0 as int,
                d[m].1 as int,
            ) is Some) by {
                if m > 0 {
                    assert(d[m] == c[m - 1]);
                }
            }
        } else {
            lemma_covers_tile(p, t, e + 1, k - first.len());
        }
    }
}

/// Covers exist: a single syllable always has a candidate.
pub proof fn lemma_covers_exist(p: Problem, t: int)
    requires
        0 <= t <= p.syllables.len(),
    ensures
        covers_from(p, t, t + 1).len() > 0,
    decreases p.syllables.len() - t,
{
    let n = p.syllables.len() as int;
    if t < n {
        assert(!crosses_break(p.breaks, t, t + 1));
        assert(candidate(p, t, t + 1) is Some);
        lemma_covers_exist(p, t + 1);
        let rest = covers_from(p, t + 1, t + 2);
        let first = rest.map_values(|c: Seq<(usize, usize)>| seq![(t as usize, (t + 1) as usize)] + c);
        assert(covers_from(p, t, t + 1) == first + covers_from(p, t, t + 2));
        assert(first.len() > 0);
    }
}

/// Coverage: every alternative is a cover of `[0, n)` by consecutive
/// non-empty intervals, so starts strictly increase.
pub proof fn law_conversion_covers(p: Problem, next: int)
    requires
        p.syllables.len() <= usize::MAX,
        next >= 0,
    ensures
        ranked_covers(p).len() == all_covers(p).len(),
        ranked_covers(p).len() > 0,
        tiles(ranked_covers(p)[next % (ranked_covers(p).len() as int)], 0, p.syllables.len() as int),
        spans_have_candidates(p, ranked_covers(p)[next % (ranked_covers(p).len() as int)]),
{
    lemma_covers_exist(p, 0);
    lemma_rank_permutes(p, all_covers(p));
    let rc = ranked_covers(p);
    let i = next % (rc.len() as int);
    let j = choose|j: int| 0 <= j < all_covers(p).len() && all_covers(p)[j] == rc[i];
    lemma_covers_tile(p, 0, 1, j);
}

/// Ranking keeps the covers: each ranked cover is one of the listed ones.
pub proof fn lemma_rank_permutes(p: Problem, cs: Seq<Seq<(usize, usize)>>)
    ensures
        rank(p, cs).len() == cs.len(),
        forall|i: int|
            0 <= i < rank(p, cs).len() ==> exists|j: int|
                0 <= j < cs.len() && cs[j] == #[trigger] rank(p, cs)[i],
    decreases cs.len(),
{
    if cs.len() > 0 {
        lemma_rank_permutes(p, cs.drop_last());
        lemma_insert_ranked_keeps(p, rank(p, cs.drop_last()), cs.last());
        let r = rank(p, cs);
        let r0 = rank(p, cs.drop_last());
        assert forall|i: int| 0 <= i < r.len() implies exists|j: int|
            0 <= j < cs.len() && cs[j] == #[trigger] r[i] by {
            if r[i] == cs.last() {
                assert(cs[cs.len() - 1] == r[i]);
            } else {
                let m = choose|m: int| 0 <= m < r0.len() && r0[m] == r[i];
                let j = choose|j: int| 0 <= j < cs.drop_last().len() && cs.drop_last()[j] == r0[m];
                assert(cs[j] == r[i]);
            }
        }
    }
}

pub proof fn lemma_insert_ranked_keeps(
    p: Problem,
    r: Seq<Seq<(usize, usize)>>,
    c: Seq<(usize, usize)>,
)
    ensures
        insert_ranked(p, r, c).len() == r.len() + 1,
        forall|i: int|
            0 <= i < insert_ranked(p, r, c).len() ==> #[trigger] insert_ranked(p, r, c)[i] == c
                || exists|m: int| 0 <= m < r.len() && r[m] == insert_ranked(p, r, c)[i],
    decreases r.len(),
{
    if r.len() > 0 && cover_score(p, r.last()) < cover_score(p, c) {
        lemma_insert_ranked_keeps(p, r.drop_last(), c);
        let x = insert_ranked(p, r, c);
        let y = insert_ranked(p, r.drop_last(), c);
        assert forall|i: int| 0 <= i < x.len() implies #[trigger] x[i] == c || exists|m: int|
            0 <= m < r.len() && r[m] == x[i] by {
            if i < y.len() {
                if y[i] != c {
                    let m = choose|m: int| 0 <= m < r.drop_last().len() && r.drop_last()[m] == y[i];
                    assert(r[m] == x[i]);
                }
            } else {
                assert(r[r.len() - 1] == x[i]);
            }
        }
    } else if r.len() > 0 {
        let x = insert_ranked(p, r, c);
        assert forall|i: int| 0 <= i < x.len() implies #[trigger] x[i] == c || exists|m: int|
            0 <= m < r.len() && r[m] == x[i] by {
            if i < r.len() {
                assert(r[i] == x[i]);
            }
        }
    }
}

/// Cycling: asking for the `next`-th alternative is asking for the
/// `next mod K`-th, where K is the number of covers.
pub proof fn law_conversion_cycles(p: Problem, next: int)
    requires
        next >= 0,
        ranked_covers(p).len() > 0,
    ensures
        conversion(p, next) == conversion(p, next % (ranked_covers(p).len() as int)),
{
    let k = ranked_covers(p).len() as int;
    assert((next % k) % k == next % k) by (nonlinear_arith)
        requires
            k > 0,
            next >= 0,
    ;
}

/// Breaks: no span of any cover has a break strictly inside it.
pub proof fn law_breaks_respected(p: Problem, c: Seq<(usize, usize)>, k: int)
    requires
        spans_have_candidates(p, c),
        0 <= k < c.len(),
    ensures
        !crosses_break(p.breaks, c[k].0 as int, c[k].1 as int),
{
    assert(candidate(p, c[k].0 as int, c[k].1 as int) is Some);
}

/// Selections: a span of a cover that contains a selection carries a
/// phrase that agrees with it, unless the span is a single syllable that no
/// dictionary phrase fitted and is written in bopomofo.
pub proof fn law_selections_respected(p: Problem, c: Seq<(usize, usize)>, k: int)
    requires
        spans_have_candidates(p, c),
        0 <= k < c.len(),
        best_of(fitting(p, c[k].0 as int, c[k].1 as int)) is Some,
    ensures
        agrees_with_selections(
            p.selections,
            c[k].0 as int,
            c[k].1 as int,
            span_text(p, c[k].0 as int, c[k].1 as int),
        ),
{
    let (s, e) = (c[k].0 as int, c[k].1 as int);
    lemma_best_of_member(fitting(p, s, e));
    let q = best_of(fitting(p, s, e))->Some_0;
    let f = |q: PhraseView| agrees_with_selections(p.selections, s, e, q.text);
    let all = layered_lookup(p.layers, p.blocks, p.syllables.subrange(s, e));
    let i = choose|i: int| 0 <= i < all.filter(f).len() && all.filter(f)[i] == q;
    assert(f(all.filter(f)[i]));
}

pub proof fn lemma_best_of_member(ps: Seq<PhraseView>)
    ensures
        best_of(ps) matches Some(b) ==> exists|i: int| 0 <= i < ps.len() && ps[i] == b,
        ps.len() > 0 ==> best_of(ps) is Some,
    decreases ps.len(),
{
    if ps.len() > 0 {
        lemma_best_of_member(ps.drop_last());
        if best_of(ps) != Some(ps.last()) {
            let b = best_of(ps.drop_last())->Some_0;
            let i = choose|i: int| 0 <= i < ps.drop_last().len() && ps.drop_last()[i] == b;
            assert(ps[i] == b);
        } else {
            assert(ps[ps.len() - 1] == ps.last());
        }
    }
}

pub proof fn lemma_tiles_bounds(c: Seq<(usize, usize)>, t: int, n: int)
    requires
        tiles(c, t, n),
    ensures
        t <= n,
        forall|k: int|
            0 <= k < c.len() ==> t <= (#[trigger] c[k]).0 && c[k].0 < c[k].1 && c[k].1 <= n,
    decreases c.len(),
{
    if c.len() > 0 {
        let d = c.drop_last();
        lemma_tiles_bounds(d, t, c.last().0 as int);
        assert forall|k: int| 0 <= k < c.len() implies t <= (#[trigger] c[k]).0 && c[k].0 < c[k].1
            && c[k].1 <= n by {
            if k < d.len() {
                assert(c[k] == d[k]);
            }
        }
    }
}

pub proof fn lemma_tiles_prefix(c: Seq<(usize, usize)>, t: int, n: int, i: int)
    requires
        tiles(c, t, n),
        0 <= i <= c.len(),
    ensures
        tiles(c.subrange(0, i), t, if i == 0 { t } else { c[i - 1].1 as int }),
    decreases c.len(),
{
    if i == c.len() {
        assert(c.subrange(0, i) =~= c);
        if i == 0 {
            assert(t == n);
        }
    } else {
        let d = c.drop_last();
        lemma_tiles_prefix(d, t, c.last().0 as int, i);
        assert(d.subrange(0, i) =~= c.subrange(0, i));
        if i > 0 {
            assert(d[i - 1] == c[i - 1]);
        }
    }
}

pub proof fn lemma_span_score_bound(p: Problem, s: int, e: int)
    requires
        s < e,
    ensures
        0 < span_score(p, s, e) <= (e - s) * 0x1_0000_0000,
{
    let f = match candidate(p, s, e) {
        Some(q) => q.freq as int,
        None => 0,
    };
    let r: int = if e - s == 1 {
        512
    } else {
        1
    };
    let m = if f / r > 1 {
        f / r
    } else {
        1
    };
    assert(f / r <= f) by (nonlinear_arith)
        requires
            r >= 1,
            f >= 0,
    ;
    assert(1 <= m <= 0x1_0000_0000);
    assert((e - s) * m <= (e - s) * 0x1_0000_0000) by (nonlinear_arith)
        requires
            e - s > 0,
            m <= 0x1_0000_0000,
    ;
    assert((e - s) * m > 0) by (nonlinear_arith)
        requires
            e - s > 0,
            m >= 1,
    ;
}

pub proof fn lemma_cover_score_bound(p: Problem, c: Seq<(usize, usize)>, t: int, n: int)
    requires
        tiles(c, t, n),
    ensures
        0 <= cover_score(p, c) <= (n - t) * 0x1_0000_0000,
    decreases c.len(),
{
    if c.len() > 0 {
        let m = c.last().0 as int;
        lemma_cover_score_bound(p, c.drop_last(), t, m);
        lemma_span_score_bound(p, m, n);
        lemma_tiles_bounds(c.drop_last(), t, m);
        assert((m - t) * 0x1_0000_0000 + (n - m) * 0x1_0000_0000 == (n - t) * 0x1_0000_0000)
            by (nonlinear_arith);
    }
}

/// Where the backward scan stops: after the last cover of at least the
/// score, and before every cover of a lower score.
pub open spec fn insert_position_ok(p: Problem, r: Seq<Seq<(usize, usize)>>, c: Seq<(usize, usize)>, pos: int) -> bool {
    &&& 0 <= pos <= r.len()
    &&& (pos == 0 || cover_score(p, r[pos - 1]) >= cover_score(p, c))
    &&& forall|m: int| pos <= m < r.len() ==> cover_score(p, #[trigger] r[m]) < cover_score(p, c)
}

pub proof fn lemma_insert_ranked_at(p: Problem, r: Seq<Seq<(usize, usize)>>, c: Seq<(usize, usize)>, pos: int)
    requires
        insert_position_ok(p, r, c, pos),
    ensures
        insert_ranked(p, r, c) == r.insert(pos, c),
    decreases r.len(),
{
    if r.len() == 0 {
        assert(r.insert(pos, c) =~= seq![c]);
    } else if cover_score(p, r.last()) >= cover_score(p, c) {
        if pos < r.len() {
            assert(cover_score(p, r[r.len() - 1]) < cover_score(p, c));
        }
        assert(r.insert(pos, c) =~= r.push(c));
    } else {
        assert(pos < r.len());
        let d = r.drop_last();
        assert(insert_position_ok(p, d, c, pos)) by {
            if pos > 0 {
                assert(d[pos - 1] == r[pos - 1]);
            }
            assert forall|m: int| pos <= m < d.len() implies cover_score(p, #[trigger] d[m])
                < cover_score(p, c) by {
                assert(d[m] == r[m]);
            }
        }
        lemma_insert_ranked_at(p, d, c, pos);
        assert(d.insert(pos, c).push(r.last()) =~= r.insert(pos, c));
    }
}

pub open spec fn covers_view(v: Seq<Vec<(usize, usize)>>) -> Seq<Seq<(usize, usize)>> {
    v.map_values(|c: Vec<(usize, usize)>| c@)
}

/// The table holds, for each start `i` and each end `i + k + 1`, the
/// candidate of that span.
pub open spec fn table_ok(p: Problem, table: Seq<Vec<Option<Phrase>>>) -> bool {
    &&& table.len() == p.syllables.len()
    &&& forall|i: int|
        0 <= i < table.len() ==> (#[trigger] table[i])@.len() == p.syllables.len() - i
            && forall|k: int|
            0 <= k < table[i]@.len() ==> opt_view(#[trigger] table[i]@[k]) == candidate(
                p,
                i,
                i + k + 1,
            )
}

fn sub_syllables(v: &Vec<Syllable>, i: usize, j: usize) -> (r: Vec<Syllable>)
    requires
        i <= j <= v@.len(),
    ensures
        r@ == v@.subrange(i as int, j as int),
{
    let mut r: Vec<Syllable> = Vec::new();
    let mut k: usize = i;
    while k < j
        invariant
            i <= k <= j,
            j <= v@.len(),
            r@ == v@.subrange(i as int, k as int),
        decreases j - k,
    {
        r.push(v[k]);
        proof {
            assert(r@ =~= v@.subrange(i as int, k as int + 1));
        }
        k = k + 1;
    }
    r
}

fn crosses(breaks: &Vec<Break>, i: usize, j: usize) -> (r: bool)
    ensures
        r == crosses_break(breaks_view(breaks@), i as int, j as int),
{
    let ghost bv = breaks_view(breaks@);
    let mut k: usize = 0;
    while k < breaks.len()
        invariant
            k <= breaks@.len(),
            bv == breaks_view(breaks@),
            forall|m: int| 0 <= m < k ==> !(i < #[trigger] bv[m] < j),
        decreases breaks@.len() - k,
    {
        if i < breaks[k].0 && breaks[k].0 < j {
            assert(i < bv[k as int] < j);
            return true;
        }
        k = k + 1;
    }
    false
}

fn agrees(sels: &Vec<Interval>, i: usize, j: usize, text: &String) -> (r: bool)
    ensures
        r == agrees_with_selections(selections_view(sels@), i as int, j as int, text@),
{
    let ghost sv = selections_view(sels@);
    let tlen = text.as_str().unicode_len();
    let mut k: usize = 0;
    while k < sels.len()
        invariant
            k <= sels@.len(),
            sv == selections_view(sels@),
            tlen == text@.len(),
            forall|m: int|
                0 <= m < k && i <= (#[trigger] sv[m]).start && j >= sv[m].end ==> {
                    &&& 0 <= sv[m].start - i
                    &&& sv[m].start <= sv[m].end
                    &&& sv[m].end - i <= text@.len()
                    &&& text@.subrange(sv[m].start - i, sv[m].end - i) == sv[m].text
                },
        decreases sels@.len() - k,
    {
        let sel = &sels[k];
        if i <= sel.start && j >= sel.end {
            if sel.start > sel.end || sel.end - i > tlen {
                assert(!agrees_with_selections(sv, i as int, j as int, text@)) by {
                    assert(sv[k as int].start == sel.start);
                }
                return false;
            }
            let slen = sel.phrase.as_str().unicode_len();
            let len = sel.end - sel.start;
            if slen != len {
                proof {
                    assert(sv[k as int].text.len() != text@.subrange(
                        sv[k as int].start - i,
                        sv[k as int].end - i,
                    ).len());
                }
                return false;
            }
            let off = sel.start - i;
            let mut m: usize = 0;
            while m < len
                invariant
                    m <= len,
                    k < sels@.len(),
                    sv == selections_view(sels@),
                    sv[k as int].start == sel.start as int,
                    sv[k as int].end == sel.end as int,
                    sv[k as int].text == sel.phrase@,
                    i <= sel.start <= sel.end,
                    j >= sel.end,
                    len == sel.end - sel.start,
                    off == sel.start - i,
                    off + len <= tlen,
                    tlen == text@.len(),
                    slen == sel.phrase@.len(),
                    slen == len,
                    forall|x: int| 0 <= x < m ==> text@[off + x] == sel.phrase@[x],
                decreases len - m,
            {
                let a = text.as_str().get_char(off + m);
                let b = sel.phrase.as_str().get_char(m);
                if a != b {
                    proof {
                        let sub = text@.subrange(off as int, (off + len) as int);
                        assert(sub[m as int] != sv[k as int].text[m as int]);
                        assert(text@.subrange(sv[k as int].start - i, sv[k as int].end - i)
                            != sv[k as int].text);
                        assert(!agrees_with_selections(sv, i as int, j as int, text@));
                    }
                    return false;
                }
                m = m + 1;
            }
            proof {
                assert(text@.subrange(off as int, (off + len) as int) =~= sel.phrase@);
            }
        }
        k = k + 1;
    }
    true
}

/// Converts syllables into phrase intervals with a layered dictionary.
#[derive(Debug)]
pub struct ChewingConversionEngine {
    pub dict: LayeredDictionary,
}

impl ChewingConversionEngine {
    pub fn new(dict: LayeredDictionary) -> (r: ChewingConversionEngine)
        ensures
            r.dict.layers@ == dict.layers@,
            r.dict.blocklists@ == dict.blocklists@,
    {
        ChewingConversionEngine { dict }
    }

    /// The phrase chosen for `[start, end)`.
    fn find_best_phrase(&self, seq: &ChineseSequence, start: usize, end: usize) -> (r: Option<Phrase>)
        requires
            start < end <= seq.syllables@.len(),
        ensures
            opt_view(r) == candidate(problem_of(&self.dict, seq), start as int, end as int),
    {
        let ghost p = problem_of(&self.dict, seq);
        if crosses(&seq.breaks, start, end) {
            return None;
        }
        let sub = sub_syllables(&seq.syllables, start, end);
        let ps = self.dict.lookup_phrase(&sub);
        let ghost all = phrases_view(ps@);
        let mut best: Option<Phrase> = None;
        let mut k: usize = 0;
        while k < ps.len()
            invariant
                k <= ps@.len(),
                all == phrases_view(ps@),
                p == problem_of(&self.dict, seq),
                opt_view(best) == best_of(
                    all.subrange(0, k as int).filter(
                        |q: PhraseView|
                            agrees_with_selections(p.selections, start as int, end as int, q.text),
                    ),
                ),
            decreases ps@.len() - k,
        {
            let ghost prev = all.subrange(0, k as int).filter(
                |q: PhraseView| agrees_with_selections(p.selections, start as int, end as int, q.text),
            );
            proof {
                let s2 = all.subrange(0, k as int + 1);
                assert(s2.drop_last() =~= all.subrange(0, k as int));
                reveal(Seq::filter);
            }
            if agrees(&seq.selections, start, end, &ps[k].text) {
                proof {
                    assert(prev.push(all[k as int]).drop_last() =~= prev);
                }
                let better = match &best {
                    None => true,
                    Some(b) => ps[k].freq > b.freq,
                };
                if better {
                    best = Some(ps[k].copy());
                }
            }
            k = k + 1;
        }
        proof {
            assert(all.subrange(0, all.len() as int) =~= all);
        }
        if best.is_none() && end == start + 1 {
            let text = seq.syllables[start].to_string();
            return Some(Phrase { text, freq: 0, last_used: None });
        }
        best
    }

    fn candidate_table(&self, seq: &ChineseSequence) -> (r: Vec<Vec<Option<Phrase>>>)
        requires
            seq.syllables@.len() < usize::MAX,
        ensures
            table_ok(problem_of(&self.dict, seq), r@),
    {
        let ghost p = problem_of(&self.dict, seq);
        let n = seq.syllables.len();
        let mut table: Vec<Vec<Option<Phrase>>> = Vec::new();
        let mut i: usize = 0;
        while i < n
            invariant
                i <= n,
                n == seq.syllables@.len(),
                n < usize::MAX,
                p == problem_of(&self.dict, seq),
                table@.len() == i,
                forall|a: int|
                    0 <= a < i ==> (#[trigger] table@[a])@.len() == n - a && forall|k: int|
                        0 <= k < table@[a]@.len() ==> opt_view(#[trigger] table@[a]@[k])
                            == candidate(p, a, a + k + 1),
            decreases n - i,
        {
            let mut row: Vec<Option<Phrase>> = Vec::new();
            let mut j: usize = i + 1;
            while j <= n
                invariant
                    i < j <= n + 1,
                    n == seq.syllables@.len(),
                    n < usize::MAX,
                    p == problem_of(&self.dict, seq),
                    row@.len() == j - i - 1,
                    forall|k: int|
                        0 <= k < row@.len() ==> opt_view(#[trigger] row@[k]) == candidate(
                            p,
                            i as int,
                            i + k + 1,
                        ),
                decreases n + 1 - j,
            {
                row.push(self.find_best_phrase(seq, i, j));
                j = j + 1;
            }
            table.push(row);
            i = i + 1;
        }
        table
    }
}

fn copy_cover(c: &Vec<(usize, usize)>) -> (r: Vec<(usize, usize)>)
    ensures
        r@ == c@,
{
    let mut r: Vec<(usize, usize)> = Vec::new();
    let mut k: usize = 0;
    while k < c.len()
        invariant
            k <= c@.len(),
            r@ == c@.subrange(0, k as int),
        decreases c@.len() - k,
    {
        r.push(c[k]);
        proof {
            assert(r@ =~= c@.subrange(0, k as int + 1));
        }
        k = k + 1;
    }
    proof {
        assert(c@.subrange(0, c@.len() as int) =~= c@);
    }
    r
}

/// Lists the covers of `[t, n)` whose first span ends at `e` or later.
fn enumerate_covers(
    table: &Vec<Vec<Option<Phrase>>>,
    n: usize,
    t: usize,
    e: usize,
    Ghost(p): Ghost<Problem>,
) -> (r: Vec<Vec<(usize, usize)>>)
    requires
        table_ok(p, table@),
        n == p.syllables.len(),
        n < usize::MAX,
        t <= n,
        e <= n + 1,
    ensures
        covers_view(r@) == covers_from(p, t as int, e as int),
    decreases n - t, n + 1 - e,
{
    if t >= n {
        let mut r: Vec<Vec<(usize, usize)>> = Vec::new();
        r.push(Vec::new());
        proof {
            assert(covers_view(r@) =~= seq![Seq::<(usize, usize)>::empty()]);
        }
        return r;
    }
    if e > n || e <= t {
        let r: Vec<Vec<(usize, usize)>> = Vec::new();
        proof {
            assert(covers_view(r@) =~= Seq::<Seq<(usize, usize)>>::empty());
        }
        return r;
    }
    let mut r: Vec<Vec<(usize, usize)>> = Vec::new();
    let ghost first: Seq<Seq<(usize, usize)>> = Seq::empty();
    proof {
        assert(table@[t as int]@.len() == n - t);
        assert(opt_view(table@[t as int]@[(e - t - 1) as int]) == candidate(p, t as int, e as int));
    }
    if table[t][e - t - 1].is_some() {
        let rest = enumerate_covers(table, n, e, e + 1, Ghost(p));
        let mut k: usize = 0;
        while k < rest.len()
            invariant
                k <= rest@.len(),
                t < e,
                r@.len() == k,
                forall|m: int|
                    0 <= m < k ==> (#[trigger] r@[m])@ == seq![(t, e)] + rest@[m]@,
            decreases rest@.len() - k,
        {
            let mut c: Vec<(usize, usize)> = Vec::new();
            c.push((t, e));
            let mut tail = copy_cover(&rest[k]);
            c.append(&mut tail);
            r.push(c);
            k = k + 1;
        }
        proof {
            first = covers_view(rest@).map_values(
                |c: Seq<(usize, usize)>| seq![(t as usize, e as usize)] + c,
            );
            assert(covers_view(r@) =~= first);
        }
    } else {
        proof {
            assert(covers_view(r@) =~= first);
        }
    }
    let mut more = enumerate_covers(table, n, t, e + 1, Ghost(p));
    r.append(&mut more);
    proof {
        assert(covers_view(r@) =~= first + covers_from(p, t as int, e as int + 1));
    }
    r
}

fn span_score_of(
    table: &Vec<Vec<Option<Phrase>>>,
    s: usize,
    e: usize,
    Ghost(p): Ghost<Problem>,
) -> (r: u128)
    requires
        table_ok(p, table@),
        s < e <= p.syllables.len(),
    ensures
        r as int == span_score(p, s as int, e as int),
{
    proof {
        assert(table@[s as int]@.len() == p.syllables.len() - s);
        assert(opt_view(table@[s as int]@[(e - s - 1) as int]) == candidate(p, s as int, e as int));
    }
    let f: u128 = match &table[s][e - s - 1] {
        Some(q) => q.freq as u128,
        None => 0,
    };
    let r: u128 = if e - s == 1 {
        512
    } else {
        1
    };
    let m: u128 = if f / r > 1 {
        f / r
    } else {
        1
    };
    let len = (e - s) as u128;
    proof {
        assert(f / r <= f) by (nonlinear_arith)
            requires
                r >= 1,
        ;
        assert(len * m <= 0x1_0000_0000_0000_0000 * 0x1_0000_0000) by (nonlinear_arith)
            requires
                len <= 0x1_0000_0000_0000_0000,
                m <= 0x1_0000_0000,
        ;
    }
    len * m
}

fn cover_score_of(
    table: &Vec<Vec<Option<Phrase>>>,
    c: &Vec<(usize, usize)>,
    Ghost(p): Ghost<Problem>,
) -> (r: u128)
    requires
        table_ok(p, table@),
        tiles(c@, 0, p.syllables.len() as int),
    ensures
        r as int == cover_score(p, c@),
{
    proof {
        lemma_tiles_bounds(c@, 0, p.syllables.len() as int);
    }
    let mut sum: u128 = 0;
    let mut k: usize = 0;
    while k < c.len()
        invariant
            k <= c@.len(),
            table_ok(p, table@),
            tiles(c@, 0, p.syllables.len() as int),
            p.syllables.len() <= usize::MAX,
            forall|m: int|
                0 <= m < c@.len() ==> 0 <= (#[trigger] c@[m]).0 && c@[m].0 < c@[m].1 && c@[m].1
                    <= p.syllables.len(),
            sum as int == cover_score(p, c@.subrange(0, k as int)),
        decreases c@.len() - k,
    {
        let (s, e) = c[k];
        let x = span_score_of(table, s, e, Ghost(p));
        proof {
            let pre = c@.subrange(0, k as int + 1);
            assert(pre.drop_last() =~= c@.subrange(0, k as int));
            lemma_tiles_prefix(c@, 0, p.syllables.len() as int, k as int + 1);
            lemma_cover_score_bound(p, pre, 0, c@[k as int].1 as int);
            assert(c@[k as int].1 * 0x1_0000_0000 <= 0x1_0000_0000_0000_0000 * 0x1_0000_0000) by (
            nonlinear_arith)
                requires
                    c@[k as int].1 <= 0x1_0000_0000_0000_0000,
            ;
        }
        sum = sum + x;
        k = k + 1;
    }
    proof {
        assert(c@.subrange(0, c@.len() as int) =~= c@);
    }
    sum
}

impl ChewingConversionEngine {
    /// The `next`-th best cover of the syllables, counting modulo the
    /// number of covers: covers rank by descending score, ties in
    /// lexicographic order of their spans.
    pub fn convert_next(&self, seq: &ChineseSequence, next: usize) -> (r: Vec<Interval>)
        requires
            seq.syllables@.len() < usize::MAX,
        ensures
            intervals_view(r@) == conversion(problem_of(&self.dict, seq), next as int),
    {
        let ghost p = problem_of(&self.dict, seq);
        let n = seq.syllables.len();
        let table = self.candidate_table(seq);
        let all = enumerate_covers(&table, n, 0, 1, Ghost(p));
        let ghost av = covers_view(all@);
        let mut ranked: Vec<Vec<(usize, usize)>> = Vec::new();
        let mut scores: Vec<u128> = Vec::new();
        let mut k: usize = 0;
        while k < all.len()
            invariant
                k <= all@.len(),
                av == covers_view(all@),
                av == all_covers(p),
                table_ok(p, table@),
                n == p.syllables.len(),
                n < usize::MAX,
                covers_view(ranked@) == rank(p, av.subrange(0, k as int)),
                scores@.len() == ranked@.len(),
                forall|m: int|
                    0 <= m < scores@.len() ==> (#[trigger] scores@[m]) as int == cover_score(
                        p,
                        ranked@[m]@,
                    ),
            decreases all@.len() - k,
        {
            proof {
                lemma_covers_tile(p, 0, 1, k as int);
            }
            let c = copy_cover(&all[k]);
            let sc = cover_score_of(&table, &c, Ghost(p));
            let ghost rv = covers_view(ranked@);
            let mut pos = ranked.len();
            while pos > 0 && scores[pos - 1] < sc
                invariant
                    pos <= ranked@.len(),
                    sc as int == cover_score(p, c@),
                    scores@.len() == ranked@.len(),
                    rv == covers_view(ranked@),
                    forall|m: int|
                        0 <= m < scores@.len() ==> (#[trigger] scores@[m]) as int == cover_score(
                            p,
                            ranked@[m]@,
                        ),
                    forall|m: int|
                        pos <= m < rv.len() ==> cover_score(p, #[trigger] rv[m]) < cover_score(
                            p,
                            c@,
                        ),
                decreases pos,
            {
                pos = pos - 1;
                assert(rv[pos as int] == ranked@[pos as int]@);
            }
            proof {
                if pos > 0 {
                    assert(rv[pos - 1] == ranked@[pos - 1]@);
                }
                assert(insert_position_ok(p, rv, c@, pos as int));
                lemma_insert_ranked_at(p, rv, c@, pos as int);
                let s2 = av.subrange(0, k as int + 1);
                assert(s2.drop_last() =~= av.subrange(0, k as int));
                assert(s2.last() == c@);
            }
            ranked.insert(pos, c);
            scores.insert(pos, sc);
            proof {
                assert(covers_view(ranked@) =~= rv.insert(pos as int, c@));
            }
            k = k + 1;
        }
        proof {
            assert(av.subrange(0, av.len() as int) =~= av);
            law_conversion_covers(p, next as int);
        }
        let idx = next % ranked.len();
        let ghost chosen = covers_view(ranked@)[idx as int];
        proof {
            lemma_tiles_bounds(chosen, 0, n as int);
        }
        let cover = &ranked[idx];
        let mut r: Vec<Interval> = Vec::new();
        let mut m: usize = 0;
        while m < cover.len()
            invariant
                m <= cover@.len(),
                cover@ == chosen,
                table_ok(p, table@),
                forall|x: int|
                    0 <= x < chosen.len() ==> 0 <= (#[trigger] chosen[x]).0 && chosen[x].0
                        < chosen[x].1 && chosen[x].1 <= p.syllables.len(),
                intervals_view(r@) == cover_intervals(p, chosen.subrange(0, m as int)),
            decreases cover@.len() - m,
        {
            let (s, e) = cover[m];
            proof {
                assert(table@[s as int]@.len() == p.syllables.len() - s);
                assert(opt_view(table@[s as int]@[(e - s - 1) as int]) == candidate(
                    p,
                    s as int,
                    e as int,
                ));
            }
            let text = match &table[s][e - s - 1] {
                Some(q) => q.text.clone(),
                None => String::new(),
            };
            proof {
                assert(text@ == span_text(p, s as int, e as int));
                assert(chosen[m as int] == (s, e));
            }
            let ghost before = r@;
            r.push(Interval { start: s, end: e, phrase: text });
            proof {
                assert(intervals_view(r@) =~= intervals_view(before).push(
                    (s, e, span_text(p, s as int, e as int)),
                ));
                assert(chosen.subrange(0, m as int + 1) =~= chosen.subrange(0, m as int).push(
                    (s, e),
                ));
                assert(intervals_view(r@) =~= cover_intervals(p, chosen.subrange(0, m as int + 1)));
            }
            m = m + 1;
        }
        proof {
            assert(chosen.subrange(0, chosen.len() as int) =~= chosen);
        }
        r
    }

    /// The best cover of the syllables.
    pub fn convert(&self, seq: &ChineseSequence) -> (r: Vec<Interval>)
        requires
            seq.syllables@.len() < usize::MAX,
        ensures
            intervals_view(r@) == conversion(problem_of(&self.dict, seq), 0),
    {
        self.convert_next(seq, 0)
    }
}

/// A converter from syllables to phrase intervals.
pub trait ConversionEngine {
    fn convert(&self, segment: &ChineseSequence) -> Vec<Interval>
        requires
            segment.syllables@.len() < usize::MAX,
    ;

    fn convert_next(&self, segment: &ChineseSequence, next: usize) -> Vec<Interval>
        requires
            segment.syllables@.len() < usize::MAX,
    ;
}

impl ConversionEngine for ChewingConversionEngine {
    fn convert(&self, segment: &ChineseSequence) -> Vec<Interval> {
        ChewingConversionEngine::convert(self, segment)
    }

    fn convert_next(&self, segment: &ChineseSequence, next: usize) -> Vec<Interval> {
        ChewingConversionEngine::convert_next(self, segment, next)
    }
}

} // verus!
