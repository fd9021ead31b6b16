use chewing::bopomofo::Bopomofo;
use chewing::bopomofo::Bopomofo::{A, AI, AN, AU, B, D, EI, EN, G, H, I, K, M, O, TONE2, TONE3, TONE4, U, X, Z};
use chewing::conversion::{Break, ChewingConversionEngine, ChineseSequence, Interval};
use chewing::dictionary::{MemoryDictionary, Phrase};
use chewing::layered::LayeredDictionary;
use chewing::syllable::Syllable;

fn syl(symbols: &[Bopomofo]) -> Syllable {
    let mut builder = Syllable::builder();
    for &b in symbols {
        builder = builder.insert(b);
    }
    builder.build()
}

fn test_dictionary() -> LayeredDictionary {
    let mut dict = MemoryDictionary::new();
    let entries: Vec<(Vec<Syllable>, Vec<(&str, u32)>)> = vec![
        (vec![syl(&[G, U, O, TONE2])], vec![("國", 1)]),
        (vec![syl(&[M, I, EN, TONE2])], vec![("民", 1)]),
        (vec![syl(&[D, A, TONE4])], vec![("大", 1)]),
        (vec![syl(&[H, U, EI, TONE4])], vec![("會", 1)]),
        (vec![syl(&[D, AI, TONE4])], vec![("代", 1)]),
        (vec![syl(&[B, I, AU, TONE3])], vec![("表", 1)]),
        (vec![syl(&[G, U, O, TONE2]), syl(&[M, I, EN, TONE2])], vec![("國民", 200)]),
        (vec![syl(&[D, A, TONE4]), syl(&[H, U, EI, TONE4])], vec![("大會", 200)]),
        (
            vec![syl(&[D, AI, TONE4]), syl(&[B, I, AU, TONE3])],
            vec![("代表", 200), ("戴錶", 100)],
        ),
        (vec![syl(&[X, I, EN])], vec![("心", 1)]),
        (vec![syl(&[K, U, TONE4]), syl(&[I, EN])], vec![("庫音", 300)]),
        (
            vec![syl(&[X, I, EN]), syl(&[K, U, TONE4]), syl(&[I, EN])],
            vec![("新酷音", 200)],
        ),
    ];
    for (syllables, phrases) in entries {
        for (text, freq) in phrases {
            dict.insert(&syllables, Phrase::new(text.to_string(), freq)).unwrap();
        }
    }
    LayeredDictionary::new(vec![dict], vec![])
}

fn six_syllables() -> Vec<Syllable> {
    vec![
        syl(&[G, U, O, TONE2]),
        syl(&[M, I, EN, TONE2]),
        syl(&[D, A, TONE4]),
        syl(&[H, U, EI, TONE4]),
        syl(&[D, AI, TONE4]),
        syl(&[B, I, AU, TONE3]),
    ]
}

fn iv(start: usize, end: usize, phrase: &str) -> Interval {
    Interval { start, end, phrase: phrase.to_string() }
}

#[test]
fn chewing_conversion_convert_empty_sequence() {
    let dict = test_dictionary();
    let engine = ChewingConversionEngine::new(dict);
    let sequence = ChineseSequence { syllables: vec![], selections: vec![], breaks: vec![] };
    assert_eq!(Vec::<Interval>::new(), engine.convert(&sequence));
}

#[test]
fn chewing_conversion_convert_simple_chinese_sequence() {
    let dict = test_dictionary();
    let engine = ChewingConversionEngine::new(dict);
    let sequence =
        ChineseSequence { syllables: six_syllables(), selections: vec![], breaks: vec![] };
    assert_eq!(
        vec![iv(0, 2, "國民"), iv(2, 4, "大會"), iv(4, 6, "代表")],
        engine.convert(&sequence)
    );
}

#[test]
fn chewing_conversion_convert_chinese_sequence_with_breaks() {
    let dict = test_dictionary();
    let engine = ChewingConversionEngine::new(dict);
    let sequence = ChineseSequence {
        syllables: six_syllables(),
        selections: vec![],
        breaks: vec![Break(1), Break(5)],
    };
    assert_eq!(
        vec![iv(0, 1, "國"), iv(1, 2, "民"), iv(2, 4, "大會"), iv(4, 5, "代"), iv(5, 6, "表")],
        engine.convert(&sequence)
    );
}

#[test]
fn chewing_conversion_convert_chinese_sequence_with_good_selection() {
    let dict = test_dictionary();
    let engine = ChewingConversionEngine::new(dict);
    let sequence = ChineseSequence {
        syllables: six_syllables(),
        selections: vec![iv(4, 6, "戴錶")],
        breaks: vec![],
    };
    assert_eq!(
        vec![iv(0, 2, "國民"), iv(2, 4, "大會"), iv(4, 6, "戴錶")],
        engine.convert(&sequence)
    );
}

#[test]
fn chewing_conversion_convert_chinese_sequence_with_substring_selection() {
    let dict = test_dictionary();
    let engine = ChewingConversionEngine::new(dict);
    let sequence = ChineseSequence {
        syllables: vec![syl(&[X, I, EN]), syl(&[K, U, TONE4]), syl(&[I, EN])],
        selections: vec![iv(1, 3, "酷音")],
        breaks: vec![],
    };
    assert_eq!(vec![iv(0, 3, "新酷音")], engine.convert(&sequence));
}

#[test]
fn chewing_conversion_convert_cycle_alternatives() {
    let dict = test_dictionary();
    let engine = ChewingConversionEngine::new(dict);
    let sequence =
        ChineseSequence { syllables: six_syllables(), selections: vec![], breaks: vec![] };
    assert_eq!(
        vec![iv(0, 2, "國民"), iv(2, 4, "大會"), iv(4, 6, "代表")],
        engine.convert_next(&sequence, 0)
    );
    assert_eq!(
        vec![iv(0, 1, "國"), iv(1, 2, "民"), iv(2, 4, "大會"), iv(4, 6, "代表")],
        engine.convert_next(&sequence, 1)
    );
    assert_eq!(
        vec![iv(0, 2, "國民"), iv(2, 3, "大"), iv(3, 4, "會"), iv(4, 6, "代表")],
        engine.convert_next(&sequence, 2)
    );
    assert_eq!(
        vec![iv(0, 2, "國民"), iv(2, 4, "大會"), iv(4, 5, "代"), iv(5, 6, "表")],
        engine.convert_next(&sequence, 3)
    );
    assert_eq!(
        vec![iv(0, 1, "國"), iv(1, 2, "民"), iv(2, 3, "大"), iv(3, 4, "會"), iv(4, 6, "代表")],
        engine.convert_next(&sequence, 4)
    );
    assert_eq!(
        vec![iv(0, 2, "國民"), iv(2, 4, "大會"), iv(4, 6, "代表")],
        engine.convert_next(&sequence, 8)
    );
}

#[test]
fn conversion_cycles_modulo_cover_count() {
    let engine = ChewingConversionEngine::new(test_dictionary());
    let sequence =
        ChineseSequence { syllables: six_syllables(), selections: vec![], breaks: vec![] };
    // eight covers: every one of the three pairs joined or split
    for k in 0..8 {
        assert_eq!(engine.convert_next(&sequence, k), engine.convert_next(&sequence, k + 8));
    }
    assert_eq!(engine.convert(&sequence), engine.convert_next(&sequence, 16));
    assert_eq!(
        vec![iv(0, 1, "國"), iv(1, 2, "民"), iv(2, 3, "大"), iv(3, 4, "會"), iv(4, 5, "代"), iv(5, 6, "表")],
        engine.convert_next(&sequence, 7)
    );
}

#[test]
fn conversion_covers_contiguously() {
    let engine = ChewingConversionEngine::new(test_dictionary());
    let sequence =
        ChineseSequence { syllables: six_syllables(), selections: vec![], breaks: vec![Break(3)] };
    for k in 0..6 {
        let r = engine.convert_next(&sequence, k);
        let mut at = 0;
        for i in &r {
            assert_eq!(at, i.start);
            assert!(i.start < i.end);
            assert!(!(i.start < 3 && 3 < i.end));
            at = i.end;
        }
        assert_eq!(6, at);
    }
}

#[test]
fn conversion_falls_back_to_bopomofo() {
    let engine = ChewingConversionEngine::new(test_dictionary());
    let sequence = ChineseSequence {
        syllables: vec![syl(&[Z, U, O, TONE4])],
        selections: vec![],
        breaks: vec![],
    };
    assert_eq!(vec![iv(0, 1, "ㄗㄨㄛˋ")], engine.convert(&sequence));
}

#[test]
fn interval_contains_and_len() {
    let a = iv(0, 4, "");
    let b = iv(1, 3, "");
    assert!(a.contains(&b));
    assert!(!b.contains(&a));
    assert_eq!(4, a.len());
}
