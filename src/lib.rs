//! The core of a Zhuyin (bopomofo) input method: keyboard layouts that turn
//! key strokes into syllables, a layered phrase dictionary, and a converter
//! that segments a syllable sequence into phrases.
//!
//! - [`bopomofo`], [`syllable`]: the phonetic alphabet and the packed syllable.
//! - [`keymap`]: physical key codes and layout independent key indexes.
//! - [`editor`], [`standard`], [`hsu`], [`et26`], [`dc26`], [`pinyin`],
//!   [`layout`]: the syllable editors of each layout.
//! - [`dictionary`], [`layered`], [`estimate`], [`userphrase`]: phrase stores
//!   and user frequencies.
//! - [`conversion`]: the phrase segmenter.

pub mod bopomofo;
pub mod conversion;
pub mod dc26;
pub mod dictionary;
pub mod editor;
pub mod estimate;
pub mod et26;
pub mod hsu;
pub mod keymap;
pub mod layered;
pub mod layout;
pub mod pinyin;
pub mod standard;
pub mod syllable;
pub mod userphrase;
