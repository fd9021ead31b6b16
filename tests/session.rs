use chewing::bopomofo::Bopomofo;
use chewing::editor::{KeyBehavior, KeyboardLayoutCompat};
use chewing::estimate::{UserFreqEstimate, MAX_USER_FREQ};
use chewing::keymap::KeyCode;
use chewing::layout::{PhoneticKeyEditorWithKeymap, SyllableEditor};
use chewing::hsu::Hsu;
use chewing::keymap::{IdentityKeymap, QWERTY};
use chewing::syllable::{syllables_bytes, syllables_from_bytes, syllables_from_phones, Syllable};

fn syl(symbols: &[Bopomofo]) -> Syllable {
    let mut builder = Syllable::builder();
    for &b in symbols {
        builder = builder.insert(b);
    }
    builder.build()
}

#[test]
fn layouts_without_editor() {
    assert!(PhoneticKeyEditorWithKeymap::new(KeyboardLayoutCompat::Ibm).is_none());
    assert!(PhoneticKeyEditorWithKeymap::new(KeyboardLayoutCompat::GinYieh).is_none());
    assert!(PhoneticKeyEditorWithKeymap::new(KeyboardLayoutCompat::Et).is_none());
    assert!(PhoneticKeyEditorWithKeymap::new(KeyboardLayoutCompat::Carpalx).is_some());
}

#[test]
fn hsu_layout_feeds_keys() {
    let mut editor = PhoneticKeyEditorWithKeymap::new(KeyboardLayoutCompat::Hsu).unwrap();
    let behaviors = editor.feed(&vec![KeyCode::C, KeyCode::E, KeyCode::N, KeyCode::Space]);
    assert_eq!(
        vec![KeyBehavior::Absorb, KeyBehavior::Absorb, KeyBehavior::Absorb, KeyBehavior::Commit],
        behaviors
    );
    assert_eq!(syl(&[Bopomofo::X, Bopomofo::I, Bopomofo::EN]), editor.read());
    assert_eq!(None, editor.key_seq());
    assert_eq!(None, editor.read_alt());
    editor.clear();
    assert!(!editor.is_entering());
}

#[test]
fn dvorak_layout_remaps_to_qwerty_positions() {
    // on a Dvorak keyboard the key that QWERTY calls `q` is `'`; it types ㄆ
    let mut editor = PhoneticKeyEditorWithKeymap::new(KeyboardLayoutCompat::Dvorak).unwrap();
    assert_eq!(KeyBehavior::Absorb, editor.key_press(KeyCode::Quote));
    assert_eq!(syl(&[Bopomofo::P]), editor.read());
    assert_eq!(Some(Bopomofo::P), editor.pop());
    assert!(!editor.is_entering());
}

#[test]
fn pinyin_layout_has_alternate() {
    let mut editor = PhoneticKeyEditorWithKeymap::new(KeyboardLayoutCompat::HanyuPinyin).unwrap();
    editor.feed(&vec![KeyCode::S, KeyCode::H, KeyCode::I]);
    assert_eq!(Some("shi".to_string()), editor.key_seq());
    assert_eq!(KeyBehavior::Commit, editor.key_press(KeyCode::N1));
    assert_eq!(syl(&[Bopomofo::SH]), editor.read());
    assert_eq!(Some(syl(&[Bopomofo::X, Bopomofo::I])), editor.read_alt());
}

#[test]
fn same_keys_same_results() {
    let keys = vec![KeyCode::G, KeyCode::X, KeyCode::H, KeyCode::J, KeyCode::N, KeyCode::F];
    let mut a = PhoneticKeyEditorWithKeymap::new(KeyboardLayoutCompat::Hsu).unwrap();
    let mut b = PhoneticKeyEditorWithKeymap::new(KeyboardLayoutCompat::Hsu).unwrap();
    assert_eq!(a.feed(&keys), b.feed(&keys));
    assert_eq!(a.read(), b.read());
}

#[test]
fn editor_trait_dispatch() {
    let keymap = IdentityKeymap::new(QWERTY);
    let mut hsu = Hsu::new();
    let editor: &mut dyn SyllableEditor = &mut hsu;
    editor.key_press(keymap.map_key(KeyCode::N));
    editor.key_press(keymap.map_key(KeyCode::F));
    assert_eq!(Some(Bopomofo::EN), editor.observe().rime);
    assert_eq!(None, editor.key_seq());
}

#[test]
fn estimator_clock_and_curve() {
    let mut est = UserFreqEstimate::new(10);
    est.tick();
    assert_eq!(11, est.now());
    // a fifth of the way up to 100, plus one
    assert_eq!(21, est.estimate(1, 100, 11));
    // at or above the highest: one more, and one more after a while
    assert_eq!(101, est.estimate(100, 100, 11));
    let later = UserFreqEstimate::new(11 + 60000);
    assert_eq!(103, later.estimate(100, 100, 11));
    assert_eq!(MAX_USER_FREQ, later.estimate(MAX_USER_FREQ, 0, 0));
    let mut end = UserFreqEstimate::new(u64::MAX);
    end.tick();
    assert_eq!(u64::MAX, end.now());
}

#[test]
fn phones_and_key_bytes_decode() {
    let s = syl(&[Bopomofo::S]);
    let d = syl(&[Bopomofo::D, Bopomofo::A, Bopomofo::TONE4]);
    // 0 is empty and 0xFFFF names nothing: both are skipped
    assert_eq!(vec![s, d], syllables_from_phones(&vec![0, s.to_u16(), 0xFFFF, d.to_u16(), 0]));
    let bytes = syllables_bytes(&vec![s, d]);
    assert_eq!(Some(vec![s, d]), syllables_from_bytes(&bytes));
    assert_eq!(None, syllables_from_bytes(&vec![0x00]));
    assert_eq!(None, syllables_from_bytes(&vec![0xFF, 0xFF]));
}
