use chewing::bopomofo::Bopomofo::{A, AN, D, I, M, T, TONE3, TONE4};
use chewing::bopomofo::Bopomofo;
use std::cmp::Ordering;
use chewing::dictionary::{DictionaryInfo, MemoryDictionary, Phrase};
use chewing::estimate::UserFreqEstimate;
use chewing::layered::{BlockList, LayeredDictionary};
use chewing::userphrase::{user_remove_phrase, user_update_phrase, UserUpdateState};
use chewing::syllable::Syllable;

fn syl(symbols: &[Bopomofo]) -> Syllable {
    let mut builder = Syllable::builder();
    for &b in symbols {
        builder = builder.insert(b);
    }
    builder.build()
}

fn texts(phrases: &[Phrase]) -> Vec<(String, u32)> {
    phrases.iter().map(|p| (p.as_str().to_string(), p.freq())).collect()
}

#[test]
fn insert_then_lookup_then_remove() {
    let key = vec![syl(&[T, I, AN]), syl(&[M, A, TONE3])];
    let mut dict = MemoryDictionary::new();
    dict.insert(&key, Phrase::new("天馬".to_string(), 10)).unwrap();
    dict.insert(&vec![syl(&[T, I, AN])], Phrase::new("天".to_string(), 3)).unwrap();
    assert_eq!(vec![("天馬".to_string(), 10)], texts(&dict.lookup_phrase(&key)));
    assert_eq!(vec![("天".to_string(), 3)], texts(&dict.lookup_word(syl(&[T, I, AN]))));
    assert!(dict.insert(&key, Phrase::new("天馬".to_string(), 1)).is_err());
    dict.remove(&key, &"天馬".to_string()).unwrap();
    assert!(dict.lookup_phrase(&key).is_empty());
    assert_eq!(1, dict.entries().len());
}

#[test]
fn update_upserts_in_place() {
    let key = vec![syl(&[D, A, TONE4])];
    let mut dict = MemoryDictionary::new();
    dict.insert(&key, Phrase::new("大".to_string(), 1)).unwrap();
    dict.insert(&key, Phrase::new("打".to_string(), 2)).unwrap();
    dict.update(&key, Phrase::new("大".to_string(), 1), 50, 7).unwrap();
    let got = dict.lookup_phrase(&key);
    assert_eq!(vec![("大".to_string(), 50), ("打".to_string(), 2)], texts(&got));
    assert_eq!(Some(7), got[0].last_used());
    dict.update(&key, Phrase::new("達".to_string(), 1), 5, 8).unwrap();
    assert_eq!(3, dict.lookup_phrase(&key).len());
}

#[test]
fn layered_upper_replaces_in_place_and_blocks() {
    let key = vec![syl(&[D, A, TONE4])];
    let mut base = MemoryDictionary::new();
    base.insert(&key, Phrase::new("大".to_string(), 1)).unwrap();
    base.insert(&key, Phrase::new("打".to_string(), 2)).unwrap();
    let mut user = MemoryDictionary::new();
    user.insert(&key, Phrase::with_time("打".to_string(), 90, 4)).unwrap();
    user.insert(&key, Phrase::new("達".to_string(), 5)).unwrap();
    let layered = LayeredDictionary::new(vec![base, user], vec![]);
    assert_eq!(
        vec![("大".to_string(), 1), ("打".to_string(), 90), ("達".to_string(), 5)],
        texts(&layered.lookup_phrase(&key))
    );

    let mut base = MemoryDictionary::new();
    base.insert(&key, Phrase::new("大".to_string(), 1)).unwrap();
    base.insert(&key, Phrase::new("打".to_string(), 2)).unwrap();
    let blocked = LayeredDictionary::new(vec![base], vec![BlockList::new(vec!["大".to_string()])]);
    assert_eq!(vec![("打".to_string(), 2)], texts(&blocked.lookup_word(syl(&[D, A, TONE4]))));
}

#[test]
fn layered_mutation_reaches_every_layer() {
    let key = vec![syl(&[D, A, TONE4])];
    let mut layered = LayeredDictionary::new(vec![MemoryDictionary::new(), MemoryDictionary::new()], vec![]);
    layered.insert(&key, Phrase::new("大".to_string(), 1)).unwrap();
    assert_eq!(1, layered.layers[0].lookup_phrase(&key).len());
    assert_eq!(1, layered.layers[1].lookup_phrase(&key).len());
    assert!(layered.insert(&key, Phrase::new("大".to_string(), 1)).is_err());
    layered.update(&key, Phrase::new("大".to_string(), 1), 9, 1).unwrap();
    assert_eq!(vec![("大".to_string(), 9)], texts(&layered.lookup_phrase(&key)));
    layered.remove(&key, &"大".to_string()).unwrap();
    assert!(layered.lookup_phrase(&key).is_empty());
}

#[test]
fn read_only_layers_are_skipped() {
    let key = vec![syl(&[D, A, TONE4])];
    let mut info = DictionaryInfo::empty();
    info.name = Some("system".to_string());
    let mut base = MemoryDictionary::with_info(info, true);
    base.insert(&key, Phrase::new("大".to_string(), 1)).unwrap();
    assert_eq!(Some("system".to_string()), base.about().name);
    let mut layered = LayeredDictionary::new(vec![base, MemoryDictionary::new()], vec![]);
    // the base already holds the text, but it is not written through
    layered.insert(&key, Phrase::new("大".to_string(), 7)).unwrap();
    assert_eq!(1, layered.layers[0].lookup_phrase(&key)[0].freq());
    assert_eq!(vec![("大".to_string(), 7)], texts(&layered.lookup_phrase(&key)));
    layered.remove(&key, &"大".to_string()).unwrap();
    assert_eq!(vec![("大".to_string(), 1)], texts(&layered.lookup_phrase(&key)));
}

#[test]
fn phrases_order_by_frequency_then_text() {
    let a = Phrase::new("大".to_string(), 1);
    let b = Phrase::new("打".to_string(), 2);
    assert_eq!(Ordering::Less, a.order(&b));
    assert_eq!(Ordering::Greater, b.order(&a));
    let c = Phrase::new("ab".to_string(), 5);
    let d = Phrase::new("abc".to_string(), 5);
    assert_eq!(Ordering::Less, c.order(&d));
    assert_eq!(Ordering::Equal, c.order(&Phrase::new("ab".to_string(), 5)));
    assert_eq!(Ordering::Greater, Phrase::new("b".to_string(), 5).order(&d));
}

#[test]
fn layered_about_names_the_stack() {
    let layered = LayeredDictionary::new(vec![], vec![]);
    assert_eq!(Some("Built-in LayeredDictionary".to_string()), layered.about().name);
    assert!(layered.lookup_phrase(&vec![syl(&[D, A, TONE4])]).is_empty());
}

#[test]
fn learning_user_phrases() {
    let key = vec![syl(&[D, A, TONE4])];
    let mut dict = MemoryDictionary::new();
    let est = UserFreqEstimate::new(100);
    assert_eq!(UserUpdateState::Insert, user_update_phrase(&mut dict, &est, &key, &"大".to_string()));
    assert_eq!(vec![("大".to_string(), 1)], texts(&dict.lookup_phrase(&key)));
    dict.insert(&key, Phrase::new("打".to_string(), 51)).unwrap();
    // 1 moves a fifth of the way to 51, plus one
    assert_eq!(UserUpdateState::Modify, user_update_phrase(&mut dict, &est, &key, &"大".to_string()));
    let got = dict.lookup_phrase(&key);
    assert_eq!(vec![("大".to_string(), 12), ("打".to_string(), 51)], texts(&got));
    assert_eq!(Some(100), got[0].last_used());
    let long: Vec<Syllable> = (0..12).map(|_| syl(&[D, A])).collect();
    assert_eq!(UserUpdateState::Fail, user_update_phrase(&mut dict, &est, &long, &"x".to_string()));
    assert!(user_remove_phrase(&mut dict, &key, &"大".to_string()));
    assert!(!user_remove_phrase(&mut dict, &key, &"大".to_string()));
    assert_eq!(vec![("打".to_string(), 51)], texts(&dict.lookup_phrase(&key)));
}
