use vstd::prelude::*;

use crate::bopomofo::Bopomofo;
use crate::dc26::{dc26_step, DaiChien26};
use crate::editor::{KeyBehavior, KeyboardLayoutCompat};
use crate::et26::{et26_step, Et26};
use crate::hsu::{hsu_step, Hsu};
use crate::keymap::{
    identity_event, remapped_event, IdentityKeymap, KeyCode, KeyEvent, RemappingKeymap, CARPALX,
    DVORAK, QWERTY,
};
use crate::pinyin::{pinyin_step, Pinyin, PinyinState, PinyinVariant};
use crate::standard::{standard_step, Standard};
use crate::syllable::{popped, Syllable};

verus! {

/// The operations every syllable editor offers.
pub trait SyllableEditor {
    spec fn editor_wf(&self) -> bool;

    /// The syllable the editor shows.
    spec fn reading(&self) -> Syllable;

    /// Handles a key press and returns the behavior of the layout.
    fn key_press(&mut self, key: KeyEvent) -> (r: KeyBehavior)
        requires
            old(self).editor_wf(),
        ensures
            final(self).editor_wf(),
    ;

    /// Whether the editor holds any input.
    fn is_entering(&self) -> bool;

    /// Removes the last phonetic symbol and returns it.
    fn pop(&mut self) -> (r: Option<Bopomofo>)
        requires
            old(self).editor_wf(),
        ensures
            final(self).editor_wf(),
    ;

    /// Clears the input.
    fn clear(&mut self)
        ensures
            final(self).editor_wf(),
            final(self).reading().spec_is_empty(),
    ;

    /// The syllable the editor shows, without changing it.
    fn observe(&self) -> (r: Syllable)
        ensures
            r == self.reading(),
    ;

    /// The Latin letters typed so far, for the editors that buffer them.
    fn key_seq(&self) -> Option<String>;
}

impl SyllableEditor for Standard {
    open spec fn editor_wf(&self) -> bool {
        self.wf()
    }

    open spec fn reading(&self) -> Syllable {
        self.syllable
    }

    fn key_press(&mut self, key: KeyEvent) -> (r: KeyBehavior) {
        Standard::key_press(self, key)
    }

    fn is_entering(&self) -> bool {
        Standard::is_entering(self)
    }

    fn pop(&mut self) -> (r: Option<Bopomofo>) {
        Standard::pop(self)
    }

    fn clear(&mut self) {
        Standard::clear(self)
    }

    fn observe(&self) -> (r: Syllable) {
        Standard::observe(self)
    }

    fn key_seq(&self) -> Option<String> {
        None
    }
}

impl SyllableEditor for Hsu {
    open spec fn editor_wf(&self) -> bool {
        self.wf()
    }

    open spec fn reading(&self) -> Syllable {
        self.syllable
    }

    fn key_press(&mut self, key: KeyEvent) -> (r: KeyBehavior) {
        Hsu::key_press(self, key)
    }

    fn is_entering(&self) -> bool {
        Hsu::is_entering(self)
    }

    fn pop(&mut self) -> (r: Option<Bopomofo>) {
        Hsu::pop(self)
    }

    fn clear(&mut self) {
        Hsu::clear(self)
    }

    fn observe(&self) -> (r: Syllable) {
        Hsu::observe(self)
    }

    fn key_seq(&self) -> Option<String> {
        None
    }
}

impl SyllableEditor for Et26 {
    open spec fn editor_wf(&self) -> bool {
        self.wf()
    }

    open spec fn reading(&self) -> Syllable {
        self.syllable
    }

    fn key_press(&mut self, key: KeyEvent) -> (r: KeyBehavior) {
        Et26::key_press(self, key)
    }

    fn is_entering(&self) -> bool {
        Et26::is_entering(self)
    }

    fn pop(&mut self) -> (r: Option<Bopomofo>) {
        Et26::pop(self)
    }

    fn clear(&mut self) {
        Et26::clear(self)
    }

    fn observe(&self) -> (r: Syllable) {
        Et26::observe(self)
    }

    fn key_seq(&self) -> Option<String> {
        None
    }
}

impl SyllableEditor for DaiChien26 {
    open spec fn editor_wf(&self) -> bool {
        self.wf()
    }

    open spec fn reading(&self) -> Syllable {
        self.syllable
    }

    fn key_press(&mut self, key: KeyEvent) -> (r: KeyBehavior) {
        DaiChien26::key_press(self, key)
    }

    fn is_entering(&self) -> bool {
        DaiChien26::is_entering(self)
    }

    fn pop(&mut self) -> (r: Option<Bopomofo>) {
        DaiChien26::pop(self)
    }

    fn clear(&mut self) {
        DaiChien26::clear(self)
    }

    fn observe(&self) -> (r: Syllable) {
        DaiChien26::observe(self)
    }

    fn key_seq(&self) -> Option<String> {
        None
    }
}

impl SyllableEditor for Pinyin {
    open spec fn editor_wf(&self) -> bool {
        self.wf()
    }

    open spec fn reading(&self) -> Syllable {
        self.syllable
    }

    fn key_press(&mut self, key: KeyEvent) -> (r: KeyBehavior) {
        Pinyin::key_press(self, key)
    }

    fn is_entering(&self) -> bool {
        Pinyin::is_entering(self)
    }

    /// The buffer holds letters rather than symbols: nothing is removed.
    fn pop(&mut self) -> (r: Option<Bopomofo>) {
        None
    }

    fn clear(&mut self) {
        Pinyin::clear(self)
    }

    fn observe(&self) -> (r: Syllable) {
        Pinyin::observe(self)
    }

    fn key_seq(&self) -> Option<String> {
        Some(self.key_seq.clone())
    }
}

/// How key codes are read before they reach the editor.
#[derive(Clone, Copy, Debug)]
pub enum Keymap {
    Identity(IdentityKeymap),
    Remapping(RemappingKeymap),
}

impl Keymap {
    pub open spec fn event(&self, code: KeyCode) -> KeyEvent {
        match self {
            Keymap::Identity(k) => identity_event(k.layout, code),
            Keymap::Remapping(k) => remapped_event(k.source, k.target, code),
        }
    }

    pub fn map_key(&self, code: KeyCode) -> (r: KeyEvent)
        ensures
            r == self.event(code),
    {
        match self {
            Keymap::Identity(k) => k.map_key(code),
            Keymap::Remapping(k) => k.map_key(code),
        }
    }
}

/// An editor of one of the layouts.
#[derive(Debug)]
pub enum AnyEditor {
    Standard(Standard),
    Hsu(Hsu),
    Et26(Et26),
    DaiChien26(DaiChien26),
    Pinyin(Pinyin),
}

/// What an editor holds, as plain values.
pub enum EditorView {
    Standard(Syllable),
    Hsu(Syllable),
    Et26(Syllable),
    DaiChien26(Syllable),
    Pinyin(PinyinState),
}

/// One key press on any editor.
pub open spec fn editor_step(v: EditorView, key: KeyEvent) -> (EditorView, KeyBehavior) {
    match v {
        EditorView::Standard(s) => {
            let (t, r) = standard_step(s, key.index);
            (EditorView::Standard(t), r)
        },
        EditorView::Hsu(s) => {
            let (t, r) = hsu_step(s, key.code);
            (EditorView::Hsu(t), r)
        },
        EditorView::Et26(s) => {
            let (t, r) = et26_step(s, key.code);
            (EditorView::Et26(t), r)
        },
        EditorView::DaiChien26(s) => {
            let (t, r) = dc26_step(s, key.index);
            (EditorView::DaiChien26(t), r)
        },
        EditorView::Pinyin(s) => {
            let (t, r) = pinyin_step(s, key.code);
            (EditorView::Pinyin(t), r)
        },
    }
}

/// A run of key codes through a keymap and an editor: the final state and
/// the behavior of each key.
pub open spec fn run_keys(km: Keymap, v: EditorView, codes: Seq<KeyCode>) -> (EditorView, Seq<KeyBehavior>)
    decreases codes.len(),
{
    if codes.len() == 0 {
        (v, Seq::empty())
    } else {
        let (w, rs) = run_keys(km, v, codes.drop_last());
        let (x, r) = editor_step(w, km.event(codes.last()));
        (x, rs.push(r))
    }
}

impl AnyEditor {
    pub open spec fn view(&self) -> EditorView {
        match self {
            AnyEditor::Standard(e) => EditorView::Standard(e.syllable),
            AnyEditor::Hsu(e) => EditorView::Hsu(e.syllable),
            AnyEditor::Et26(e) => EditorView::Et26(e.syllable),
            AnyEditor::DaiChien26(e) => EditorView::DaiChien26(e.syllable),
            AnyEditor::Pinyin(e) => EditorView::Pinyin(e.state()),
        }
    }

    pub open spec fn wf(&self) -> bool {
        match self {
            AnyEditor::Standard(e) => e.wf(),
            AnyEditor::Hsu(e) => e.wf(),
            AnyEditor::Et26(e) => e.wf(),
            AnyEditor::DaiChien26(e) => e.wf(),
            AnyEditor::Pinyin(e) => e.wf(),
        }
    }

    pub open spec fn reading(&self) -> Syllable {
        match self {
            AnyEditor::Standard(e) => e.syllable,
            AnyEditor::Hsu(e) => e.syllable,
            AnyEditor::Et26(e) => e.syllable,
            AnyEditor::DaiChien26(e) => e.syllable,
            AnyEditor::Pinyin(e) => e.syllable,
        }
    }
}

/// A syllable editor of one layout, with the keymap that reads its keys.
#[derive(Debug)]
pub struct PhoneticKeyEditorWithKeymap {
    pub kb_type: KeyboardLayoutCompat,
    pub keymap: Keymap,
    pub editor: AnyEditor,
}

impl PhoneticKeyEditorWithKeymap {
    pub open spec fn wf(&self) -> bool {
        self.editor.wf()
    }

    /// The editor and keymap of a layout; none for the IBM, Gin-Yieh and
    /// ET layouts, which have no editor here.
    pub fn new(kb_type: KeyboardLayoutCompat) -> (r: Option<PhoneticKeyEditorWithKeymap>)
        ensures
            r is None <==> (kb_type == KeyboardLayoutCompat::Ibm || kb_type
                == KeyboardLayoutCompat::GinYieh || kb_type == KeyboardLayoutCompat::Et),
            r matches Some(e) ==> e.wf() && e.kb_type == kb_type && e.editor.reading().spec_is_empty(),
            r matches Some(e) ==> match kb_type {
                KeyboardLayoutCompat::Default => e.editor is Standard && e.keymap == Keymap::Identity(
                    IdentityKeymap { layout: QWERTY },
                ),
                KeyboardLayoutCompat::Hsu => e.editor is Hsu && e.keymap == Keymap::Identity(
                    IdentityKeymap { layout: QWERTY },
                ),
                KeyboardLayoutCompat::Et26 => e.editor is Et26 && e.keymap == Keymap::Identity(
                    IdentityKeymap { layout: QWERTY },
                ),
                KeyboardLayoutCompat::Dvorak => e.editor is Standard && e.keymap == Keymap::Remapping(
                    RemappingKeymap { source: DVORAK, target: QWERTY },
                ),
                KeyboardLayoutCompat::DvorakHsu => e.editor is Hsu && e.keymap == Keymap::Remapping(
                    RemappingKeymap { source: DVORAK, target: QWERTY },
                ),
                KeyboardLayoutCompat::DachenCp26 => e.editor is DaiChien26 && e.keymap
                    == Keymap::Identity(IdentityKeymap { layout: QWERTY }),
                KeyboardLayoutCompat::HanyuPinyin => e.editor.view() == EditorView::Pinyin(
                    PinyinState {
                        key_seq: Seq::empty(),
                        syllable: crate::syllable::empty_syllable(),
                        syllable_alt: crate::syllable::empty_syllable(),
                        variant: PinyinVariant::HanyuPinyin,
                    },
                ) && e.keymap == Keymap::Identity(IdentityKeymap { layout: QWERTY }),
                KeyboardLayoutCompat::ThlPinyin => e.editor.view() == EditorView::Pinyin(
                    PinyinState {
                        key_seq: Seq::empty(),
                        syllable: crate::syllable::empty_syllable(),
                        syllable_alt: crate::syllable::empty_syllable(),
                        variant: PinyinVariant::ThlPinyin,
                    },
                ) && e.keymap == Keymap::Identity(IdentityKeymap { layout: QWERTY }),
                KeyboardLayoutCompat::Mps2Pinyin => e.editor.view() == EditorView::Pinyin(
                    PinyinState {
                        key_seq: Seq::empty(),
                        syllable: crate::syllable::empty_syllable(),
                        syllable_alt: crate::syllable::empty_syllable(),
                        variant: PinyinVariant::Mps2Pinyin,
                    },
                ) && e.keymap == Keymap::Identity(IdentityKeymap { layout: QWERTY }),
                KeyboardLayoutCompat::Carpalx => e.editor is Standard && e.keymap
                    == Keymap::Remapping(RemappingKeymap { source: CARPALX, target: QWERTY }),
                _ => false,
            },
    {
        let qwerty = Keymap::Identity(IdentityKeymap::new(QWERTY));
        let (keymap, editor) = match kb_type {
            KeyboardLayoutCompat::Default => (qwerty, AnyEditor::Standard(Standard::new())),
            KeyboardLayoutCompat::Hsu => (qwerty, AnyEditor::Hsu(Hsu::new())),
            KeyboardLayoutCompat::Et26 => (qwerty, AnyEditor::Et26(Et26::new())),
            KeyboardLayoutCompat::Dvorak => (
                Keymap::Remapping(RemappingKeymap::new(DVORAK, QWERTY)),
                AnyEditor::Standard(Standard::new()),
            ),
            KeyboardLayoutCompat::DvorakHsu => (
                Keymap::Remapping(RemappingKeymap::new(DVORAK, QWERTY)),
                AnyEditor::Hsu(Hsu::new()),
            ),
            KeyboardLayoutCompat::DachenCp26 => (qwerty, AnyEditor::DaiChien26(DaiChien26::new())),
            KeyboardLayoutCompat::HanyuPinyin => (qwerty, AnyEditor::Pinyin(Pinyin::hanyu())),
            KeyboardLayoutCompat::ThlPinyin => (qwerty, AnyEditor::Pinyin(Pinyin::thl())),
            KeyboardLayoutCompat::Mps2Pinyin => (qwerty, AnyEditor::Pinyin(Pinyin::mps2())),
            KeyboardLayoutCompat::Carpalx => (
                Keymap::Remapping(RemappingKeymap::new(CARPALX, QWERTY)),
                AnyEditor::Standard(Standard::new()),
            ),
            _ => {
                return None;
            },
        };
        proof {
            if let AnyEditor::Pinyin(p) = &editor {
                assert(p.key_seq@ =~= Seq::<char>::empty());
            }
        }
        Some(PhoneticKeyEditorWithKeymap { kb_type, keymap, editor })
    }

    /// Reads a key code through the keymap and hands it to the editor.
    pub fn key_press(&mut self, code: KeyCode) -> (r: KeyBehavior)
        requires
            old(self).wf(),
        ensures
            final(self).wf(),
            final(self).kb_type == old(self).kb_type,
            final(self).keymap == old(self).keymap,
            (final(self).editor.view(), r) == editor_step(
                old(self).editor.view(),
                old(self).keymap.event(code),
            ),
    {
        let key = self.keymap.map_key(code);
        match &mut self.editor {
            AnyEditor::Standard(e) => e.key_press(key),
            AnyEditor::Hsu(e) => e.key_press(key),
            AnyEditor::Et26(e) => e.key_press(key),
            AnyEditor::DaiChien26(e) => e.key_press(key),
            AnyEditor::Pinyin(e) => e.key_press(key),
        }
    }

    /// Hands a sequence of key codes to the editor, one by one.
    pub fn feed(&mut self, codes: &Vec<KeyCode>) -> (r: Vec<KeyBehavior>)
        requires
            old(self).wf(),
        ensures
            final(self).wf(),
            final(self).keymap == old(self).keymap,
            (final(self).editor.view(), r@) == run_keys(
                old(self).keymap,
                old(self).editor.view(),
                codes@,
            ),
    {
        let ghost km = self.keymap;
        let ghost v0 = self.editor.view();
        let mut r: Vec<KeyBehavior> = Vec::new();
        let mut i: usize = 0;
        while i < codes.len()
            invariant
                i <= codes@.len(),
                self.wf(),
                self.keymap == km,
                (self.editor.view(), r@) == run_keys(km, v0, codes@.subrange(0, i as int)),
            decreases codes@.len() - i,
        {
            proof {
                let s = codes@.subrange(0, i as int + 1);
                assert(s.drop_last() =~= codes@.subrange(0, i as int));
            }
            let b = self.key_press(codes[i]);
            r.push(b);
            i = i + 1;
        }
        proof {
            assert(codes@.subrange(0, codes@.len() as int) =~= codes@);
        }
        r
    }

    pub fn is_entering(&self) -> (r: bool)
        ensures
            r == match self.editor {
                AnyEditor::Pinyin(e) => e.key_seq@.len() > 0,
                _ => !self.editor.reading().spec_is_empty(),
            },
    {
        match &self.editor {
            AnyEditor::Standard(e) => e.is_entering(),
            AnyEditor::Hsu(e) => e.is_entering(),
            AnyEditor::Et26(e) => e.is_entering(),
            AnyEditor::DaiChien26(e) => e.is_entering(),
            AnyEditor::Pinyin(e) => e.is_entering(),
        }
    }

    /// Removes the last symbol of a bopomofo editor; a Pinyin editor keeps
    /// its letters.
    pub fn pop(&mut self) -> (r: Option<Bopomofo>)
        requires
            old(self).wf(),
        ensures
            final(self).wf(),
            final(self).keymap == old(self).keymap,
            old(self).editor is Pinyin ==> r is None && final(self).editor.view() == old(
                self,
            ).editor.view(),
            !(old(self).editor is Pinyin) ==> (final(self).editor.reading(), r) == popped(
                old(self).editor.reading(),
            ),
    {
        match &mut self.editor {
            AnyEditor::Standard(e) => e.pop(),
            AnyEditor::Hsu(e) => e.pop(),
            AnyEditor::Et26(e) => e.pop(),
            AnyEditor::DaiChien26(e) => e.pop(),
            AnyEditor::Pinyin(_) => None,
        }
    }

    pub fn clear(&mut self)
        ensures
            final(self).wf(),
            final(self).keymap == old(self).keymap,
            final(self).editor.reading().spec_is_empty(),
    {
        match &mut self.editor {
            AnyEditor::Standard(e) => e.clear(),
            AnyEditor::Hsu(e) => e.clear(),
            AnyEditor::Et26(e) => e.clear(),
            AnyEditor::DaiChien26(e) => e.clear(),
            AnyEditor::Pinyin(e) => e.clear(),
        }
    }

    /// The syllable the editor shows.
    pub fn read(&self) -> (r: Syllable)
        ensures
            r == self.editor.reading(),
    {
        match &self.editor {
            AnyEditor::Standard(e) => e.observe(),
            AnyEditor::Hsu(e) => e.observe(),
            AnyEditor::Et26(e) => e.observe(),
            AnyEditor::DaiChien26(e) => e.observe(),
            AnyEditor::Pinyin(e) => e.observe(),
        }
    }

    /// The alternate reading of a Pinyin editor's syllable; none for the
    /// other editors.
    pub fn read_alt(&self) -> (r: Option<Syllable>)
        ensures
            r == match self.editor {
                AnyEditor::Pinyin(e) => Some(e.syllable_alt),
                _ => None,
            },
    {
        match &self.editor {
            AnyEditor::Pinyin(e) => Some(e.alt()),
            _ => None,
        }
    }

    /// The Latin letters a Pinyin editor buffers; none for the others.
    pub fn key_seq(&self) -> (r: Option<String>)
        ensures
            self.editor is Pinyin <==> r is Some,
            r matches Some(s) ==> match self.editor {
                AnyEditor::Pinyin(e) => s@ == e.key_seq@,
                _ => false,
            },
    {
        match &self.editor {
            AnyEditor::Pinyin(e) => Some(e.key_seq.clone()),
            _ => None,
        }
    }
}

/// Determinism: the same keys fed through the same keymap to editors in the
/// same state give the same final state and the same behaviors.
pub proof fn law_editor_determinism(km: Keymap, a: EditorView, b: EditorView, codes: Seq<KeyCode>)
    requires
        a == b,
    ensures
        run_keys(km, a, codes) == run_keys(km, b, codes),
{
}

/// The Hsu end-key law: a run that ends with one of s d f j or space, typed
/// after an initial, a medial or a rime, ends with a commit of a non-empty
/// syllable.
pub proof fn law_hsu_end_key(s: Syllable, code: KeyCode)
    requires
        crate::hsu::hsu_end_code(code),
        crate::editor::has_phonetic(s),
    ensures
        hsu_step(s, code).1 == KeyBehavior::Commit,
        !hsu_step(s, code).0.spec_is_empty(),
{
}

} // verus!
