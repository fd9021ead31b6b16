use chewing::bopomofo::Bopomofo;
use chewing::dc26::DaiChien26;
use chewing::editor::KeyBehavior;
use chewing::et26::Et26;
use chewing::hsu::Hsu;
use chewing::keymap::{
    key_index_from_qwerty, IdentityKeymap, KeyCode, KeyIndex, KeyIndexFromQwerty, RemappingKeymap,
    DVORAK, QWERTY,
};
use chewing::pinyin::Pinyin;
use chewing::standard::Standard;
use chewing::syllable::Syllable;

fn syl(symbols: &[Bopomofo]) -> Syllable {
    let mut builder = Syllable::builder();
    for &b in symbols {
        builder = builder.insert(b);
    }
    builder.build()
}

#[test]
fn hsu_cen() {
    let mut hsu = Hsu::new();
    let keymap = IdentityKeymap::new(QWERTY);
    hsu.key_press(keymap.map_key(KeyCode::C));
    hsu.key_press(keymap.map_key(KeyCode::E));
    hsu.key_press(keymap.map_key(KeyCode::N));
    hsu.key_press(keymap.map_key(KeyCode::Space));
    let result = hsu.observe();
    assert_eq!(result.initial, Some(Bopomofo::X));
    assert_eq!(result.medial, Some(Bopomofo::I));
    assert_eq!(result.rime, Some(Bopomofo::EN));
}

#[test]
fn hsu_convert_n_to_en() {
    let mut hsu = Hsu::new();
    let keymap = IdentityKeymap::new(QWERTY);
    hsu.key_press(keymap.map_key(KeyCode::N));
    hsu.key_press(keymap.map_key(KeyCode::F));
    let result = hsu.observe();
    assert_eq!(result.rime, Some(Bopomofo::EN));
}

#[test]
fn space() {
    let mut editor = Standard::new();
    let keymap = IdentityKeymap::new(QWERTY);
    let behavior = editor.key_press(keymap.map_key(KeyCode::Space));
    assert_eq!(KeyBehavior::KeyError, behavior);
}

#[test]
fn hsu_cen_commits_tone_one() {
    let mut hsu = Hsu::new();
    let keymap = IdentityKeymap::new(QWERTY);
    assert_eq!(KeyBehavior::Absorb, hsu.key_press(keymap.map_key(KeyCode::C)));
    assert_eq!(KeyBehavior::Absorb, hsu.key_press(keymap.map_key(KeyCode::E)));
    assert_eq!(KeyBehavior::Absorb, hsu.key_press(keymap.map_key(KeyCode::N)));
    assert_eq!(KeyBehavior::Commit, hsu.key_press(keymap.map_key(KeyCode::Space)));
    assert_eq!(syl(&[Bopomofo::X, Bopomofo::I, Bopomofo::EN]), hsu.observe());
}

#[test]
fn hsu_n_f_is_en_third_tone() {
    let mut hsu = Hsu::new();
    let keymap = IdentityKeymap::new(QWERTY);
    hsu.key_press(keymap.map_key(KeyCode::N));
    assert_eq!(KeyBehavior::Commit, hsu.key_press(keymap.map_key(KeyCode::F)));
    assert_eq!(syl(&[Bopomofo::EN, Bopomofo::TONE3]), hsu.observe());
}

#[test]
fn hsu_end_key_commits_nonempty() {
    let keymap = IdentityKeymap::new(QWERTY);
    for end in [KeyCode::S, KeyCode::D, KeyCode::F, KeyCode::J, KeyCode::Space] {
        let mut hsu = Hsu::new();
        hsu.key_press(keymap.map_key(KeyCode::M));
        assert_eq!(KeyBehavior::Commit, hsu.key_press(keymap.map_key(end)));
        assert!(hsu.is_entering());
        assert_eq!(Some(Bopomofo::AN), hsu.observe().rime);
    }
    let mut hsu = Hsu::new();
    assert_eq!(KeyBehavior::NoWord, hsu.key_press(keymap.map_key(KeyCode::Space)));
}

#[test]
fn hsu_ji_becomes_jiu() {
    let keymap = IdentityKeymap::new(QWERTY);
    let mut hsu = Hsu::new();
    hsu.key_press(keymap.map_key(KeyCode::J));
    hsu.key_press(keymap.map_key(KeyCode::E));
    assert_eq!(syl(&[Bopomofo::J, Bopomofo::I]), hsu.observe());
    hsu.key_press(keymap.map_key(KeyCode::D));
    assert_eq!(syl(&[Bopomofo::J, Bopomofo::IU, Bopomofo::TONE2]), hsu.observe());
}

#[test]
fn hsu_is_deterministic() {
    let keymap = IdentityKeymap::new(QWERTY);
    let keys = [KeyCode::G, KeyCode::X, KeyCode::H, KeyCode::J];
    let mut a = Hsu::new();
    let mut b = Hsu::new();
    for k in keys {
        assert_eq!(a.key_press(keymap.map_key(k)), b.key_press(keymap.map_key(k)));
        assert_eq!(a.observe(), b.observe());
    }
    assert_eq!(syl(&[Bopomofo::G, Bopomofo::U, Bopomofo::O, Bopomofo::TONE4]), a.observe());
}

#[test]
fn standard_types_and_commits() {
    let keymap = IdentityKeymap::new(QWERTY);
    let mut editor = Standard::new();
    // ㄍ ㄨ ㄛ ˊ
    assert_eq!(KeyBehavior::Absorb, editor.key_press(keymap.map_key(KeyCode::E)));
    assert_eq!(KeyBehavior::Absorb, editor.key_press(keymap.map_key(KeyCode::J)));
    assert_eq!(KeyBehavior::Absorb, editor.key_press(keymap.map_key(KeyCode::I)));
    assert_eq!(KeyBehavior::Commit, editor.key_press(keymap.map_key(KeyCode::N6)));
    assert_eq!(syl(&[Bopomofo::G, Bopomofo::U, Bopomofo::O, Bopomofo::TONE2]), editor.observe());
    assert_eq!(Some(Bopomofo::TONE2), editor.pop());
    editor.clear();
    assert!(!editor.is_entering());
    assert_eq!(KeyBehavior::OpenSymbolTable, editor.key_press(keymap.map_key(KeyCode::Grave)));
}

#[test]
fn standard_space_commits_without_tone() {
    let keymap = IdentityKeymap::new(QWERTY);
    let mut editor = Standard::new();
    editor.key_press(keymap.map_key(KeyCode::A));
    assert_eq!(KeyBehavior::Commit, editor.key_press(keymap.map_key(KeyCode::Space)));
    assert_eq!(syl(&[Bopomofo::M]), editor.observe());
}

#[test]
fn et26_rewrites_lone_initial() {
    let keymap = IdentityKeymap::new(QWERTY);
    let mut et = Et26::new();
    et.key_press(keymap.map_key(KeyCode::P));
    assert_eq!(KeyBehavior::Commit, et.key_press(keymap.map_key(KeyCode::F)));
    assert_eq!(syl(&[Bopomofo::OU, Bopomofo::TONE2]), et.observe());
}

#[test]
fn dc26_toggles() {
    let keymap = IdentityKeymap::new(QWERTY);
    let mut dc = DaiChien26::new();
    // the ㄧ/ㄚ key: ㄧ, then ㄚ
    dc.key_press(keymap.map_key(KeyCode::U));
    assert_eq!(syl(&[Bopomofo::I]), dc.observe());
    dc.key_press(keymap.map_key(KeyCode::U));
    assert_eq!(syl(&[Bopomofo::A]), dc.observe());
    dc.clear();
    // paired initials take the alternate on an empty slot, then toggle
    dc.key_press(keymap.map_key(KeyCode::Q));
    assert_eq!(syl(&[Bopomofo::P]), dc.observe());
    dc.key_press(keymap.map_key(KeyCode::Q));
    assert_eq!(syl(&[Bopomofo::B]), dc.observe());
    assert_eq!(KeyBehavior::Commit, dc.key_press(keymap.map_key(KeyCode::Space)));
}

#[test]
fn pinyin_shi_on_hanyu() {
    let keymap = IdentityKeymap::new(QWERTY);
    let mut pinyin = Pinyin::hanyu();
    for k in [KeyCode::S, KeyCode::H, KeyCode::I] {
        assert_eq!(KeyBehavior::Absorb, pinyin.key_press(keymap.map_key(k)));
    }
    assert_eq!("shi", pinyin.key_seq().as_str());
    assert_eq!(KeyBehavior::Commit, pinyin.key_press(keymap.map_key(KeyCode::N1)));
    assert_eq!(syl(&[Bopomofo::SH]), pinyin.observe());
    assert_eq!(syl(&[Bopomofo::X, Bopomofo::I]), pinyin.alt());
    assert!(!pinyin.is_entering());
}

#[test]
fn pinyin_tokenizes_with_tone() {
    let keymap = IdentityKeymap::new(QWERTY);
    let mut pinyin = Pinyin::hanyu();
    for k in [KeyCode::Z, KeyCode::H, KeyCode::O, KeyCode::N, KeyCode::G] {
        pinyin.key_press(keymap.map_key(k));
    }
    assert_eq!(KeyBehavior::Commit, pinyin.key_press(keymap.map_key(KeyCode::N1)));
    assert_eq!(syl(&[Bopomofo::ZH, Bopomofo::U, Bopomofo::ENG]), pinyin.observe());
    for k in [KeyCode::X, KeyCode::U, KeyCode::E] {
        pinyin.key_press(keymap.map_key(k));
    }
    assert_eq!(KeyBehavior::Commit, pinyin.key_press(keymap.map_key(KeyCode::N2)));
    assert_eq!(syl(&[Bopomofo::X, Bopomofo::IU, Bopomofo::EH, Bopomofo::TONE2]), pinyin.observe());
}

#[test]
fn pinyin_variants_swap_readings() {
    let keymap = IdentityKeymap::new(QWERTY);
    let mut thl = Pinyin::thl();
    for k in [KeyCode::S, KeyCode::I, KeyCode::N4] {
        thl.key_press(keymap.map_key(k));
    }
    assert_eq!(syl(&[Bopomofo::X, Bopomofo::I, Bopomofo::TONE4]), thl.observe());
    assert_eq!(syl(&[Bopomofo::S, Bopomofo::TONE4]), thl.alt());
    let mut mps2 = Pinyin::mps2();
    for k in [KeyCode::J, KeyCode::U, KeyCode::Space] {
        mps2.key_press(keymap.map_key(k));
    }
    assert_eq!(syl(&[Bopomofo::ZH, Bopomofo::U]), mps2.observe());
}

#[test]
fn pinyin_buffer_limits() {
    let keymap = IdentityKeymap::new(QWERTY);
    let mut pinyin = Pinyin::new();
    for _ in 0..10 {
        assert_eq!(KeyBehavior::Absorb, pinyin.key_press(keymap.map_key(KeyCode::W)));
    }
    assert_eq!(KeyBehavior::NoWord, pinyin.key_press(keymap.map_key(KeyCode::W)));
    assert_eq!(KeyBehavior::Absorb, pinyin.key_press(keymap.map_key(KeyCode::Space)));
    assert_eq!("", pinyin.key_seq().as_str());
    assert_eq!(KeyBehavior::KeyError, pinyin.key_press(keymap.map_key(KeyCode::Comma)));
}

#[test]
fn keymaps() {
    let identity = IdentityKeymap::new(QWERTY);
    let e = identity.map_key(KeyCode::Q);
    assert_eq!(KeyIndex::K15, e.index);
    assert_eq!(KeyCode::Q, e.code);
    let remap = RemappingKeymap::new(DVORAK, QWERTY);
    let e = remap.map_key(KeyCode::Quote);
    assert_eq!(KeyIndex::K15, e.index);
    assert_eq!(KeyCode::Q, e.code);
    assert_eq!(KeyIndex::K48, key_index_from_qwerty(b' '));
    assert_eq!(KeyIndex::K1, b'1'.as_key_index());
    assert_eq!(KeyIndex::K0, b'!'.as_key_index());
}
