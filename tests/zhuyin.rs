use chewing::bopomofo::{Bopomofo, BopomofoParseError};
use chewing::editor::KeyBuf;
use chewing::syllable::{syllables_bytes, Syllable};

fn syl(symbols: &[Bopomofo]) -> Syllable {
    let mut builder = Syllable::builder();
    for &b in symbols {
        builder = builder.insert(b);
    }
    builder.build()
}

#[test]
fn syllable_hsu_sdf_as_u16() {
    let syl = Syllable::builder().insert(Bopomofo::S).build();
    assert_eq!(0x2A00, syl.to_u16());

    let syl = Syllable::builder().insert(Bopomofo::D).build();
    assert_eq!(0xA00, syl.to_u16());

    let syl = Syllable::builder().insert(Bopomofo::F).build();
    assert_eq!(0x800, syl.to_u16());
}

#[test]
fn syllable_as_u16_roundtrip() {
    let syl = Syllable::builder().insert(Bopomofo::S).build();
    assert_eq!(syl, Syllable::from_u16(syl.to_u16()).unwrap());
}

#[test]
fn syl_macro_rules() {
    let s = syl(&[]);
    assert_eq!(Syllable::new(), s);

    let s = syl(&[Bopomofo::S]);
    assert_eq!(Syllable::builder().insert(Bopomofo::S).build(), s);

    let s = syl(&[Bopomofo::S, Bopomofo::I, Bopomofo::EN, Bopomofo::TONE4]);
    assert_eq!(
        Syllable::builder()
            .insert(Bopomofo::S)
            .insert(Bopomofo::I)
            .insert(Bopomofo::EN)
            .insert(Bopomofo::TONE4)
            .build(),
        s
    );
}

#[test]
fn syl_macro_rules_comiles_in_const() {
    let syllable: Syllable = syl(&[Bopomofo::S, Bopomofo::I, Bopomofo::EN]);
    assert_eq!(
        Syllable::builder()
            .insert(Bopomofo::S)
            .insert(Bopomofo::I)
            .insert(Bopomofo::EN)
            .build(),
        syllable
    );
}

#[test]
fn new_and_pop_bopomofo() {
    let mut s = syl(&[Bopomofo::S, Bopomofo::I, Bopomofo::EN, Bopomofo::TONE4]);
    assert_eq!(Some(Bopomofo::TONE4), s.pop());
    assert_eq!(Some(Bopomofo::EN), s.pop());
    assert_eq!(Some(Bopomofo::I), s.pop());
    assert_eq!(Some(Bopomofo::S), s.pop());
    assert_eq!(None, s.pop());
    assert_eq!(syl(&[]), s);
}

#[test]
fn encode_hsu_sdf() {
    let key_buf = KeyBuf(Some(Bopomofo::S), None, None, None);
    let syllable_code = key_buf.encode();
    assert_eq!(0x2A00, syllable_code);

    let key_buf = KeyBuf(Some(Bopomofo::D), None, None, None);
    let syllable_code = key_buf.encode();
    assert_eq!(0xA00, syllable_code);

    let key_buf = KeyBuf(Some(Bopomofo::F), None, None, None);
    let syllable_code = key_buf.encode();
    assert_eq!(0x800, syllable_code);
}

#[test]
fn full_syllable_code_layout() {
    // ㄙ is initial 21, ㄧ medial 1, ㄣ rime 10, ˋ tone 4
    let s = syl(&[Bopomofo::S, Bopomofo::I, Bopomofo::EN, Bopomofo::TONE4]);
    assert_eq!((21 << 9) | (1 << 7) | (10 << 3) | 4, s.to_u16());
    assert_eq!([0xD4, 0x2A], s.to_le_bytes());
}

#[test]
fn first_tone_is_unmarked() {
    let mut s = syl(&[Bopomofo::M, Bopomofo::A]);
    s.update(Bopomofo::TONE1);
    assert_eq!(None, s.tone());
    assert_eq!(syl(&[Bopomofo::M, Bopomofo::A]).to_u16(), s.to_u16());
    s.update(Bopomofo::TONE3);
    assert_eq!(Some(Bopomofo::TONE3), s.tone());
    s.update(Bopomofo::TONE1);
    assert_eq!(None, s.tone());
}

#[test]
fn every_legal_code_round_trips() {
    let mut count = 0;
    for x in 0..=u16::MAX {
        if let Ok(s) = Syllable::from_u16(x) {
            assert_eq!(x, s.to_u16());
            assert_eq!(s, Syllable::from_u16(s.to_u16()).unwrap());
            count += 1;
        }
    }
    assert_eq!(22 * 4 * 14 * 5, count);
}

#[test]
fn illegal_code_is_a_decode_error() {
    // initial field 22 names no initial
    let e = Syllable::from_u16(22 << 9).unwrap_err();
    assert_eq!(22 << 9, e.code);
    // rime field 14 names no rime
    assert!(Syllable::from_u16(14 << 3).is_err());
    // tone field 5 names no tone
    assert!(Syllable::from_u16(5).is_err());
}

#[test]
fn update_replaces_same_kind() {
    let mut s = syl(&[Bopomofo::B, Bopomofo::A]);
    s.update(Bopomofo::P);
    s.update(Bopomofo::O);
    assert_eq!(syl(&[Bopomofo::P, Bopomofo::O]), s);
    s.clear();
    assert!(s.is_empty());
}

#[test]
fn syllable_renders_in_display_order() {
    let s = syl(&[Bopomofo::TONE2, Bopomofo::O, Bopomofo::U, Bopomofo::G]);
    assert_eq!("ㄍㄨㄛˊ", s.to_string());
}

#[test]
fn bopomofo_chars_parse() {
    assert_eq!(Ok(Bopomofo::ZH), Bopomofo::from_char('ㄓ'));
    assert_eq!(Ok(Bopomofo::TONE1), Bopomofo::from_char('ˉ'));
    assert_eq!(Err(BopomofoParseError::Unknown), Bopomofo::from_char('a'));
    assert_eq!('ㄩ', Bopomofo::IU.to_char());
}

#[test]
fn bopomofo_indexes() {
    assert_eq!(Bopomofo::S, Bopomofo::from_initial(21));
    assert_eq!(21, Bopomofo::S.initial_index());
    assert_eq!(Bopomofo::IU, Bopomofo::from_medial(3));
    assert_eq!(Bopomofo::ER, Bopomofo::from_rime(13));
    assert_eq!(Bopomofo::ER, Bopomofo::from_final(13));
    assert_eq!(9, Bopomofo::AN.final_index());
    assert_eq!(Bopomofo::TONE5, Bopomofo::from_tone(1));
    assert_eq!(4, Bopomofo::TONE4.tone_index());
}

#[test]
fn syllable_key_bytes() {
    let syls = vec![syl(&[Bopomofo::S]), syl(&[Bopomofo::D])];
    assert_eq!(vec![0x00, 0x2A, 0x00, 0x0A], syllables_bytes(&syls));
}
