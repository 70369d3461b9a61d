//! Transliteration between Latin-alphabet text and Japanese kana.
//!
//! The crate segments a Latin string into Japanese syllable tokens
//! (honoring digraphs, gemination, the nasal coda and long vowels),
//! renders token sequences as hiragana or katakana, inverts kana back
//! to romaji, and bridges English pronunciation-dictionary phones into
//! kana through caller-supplied phone tables.

pub mod chars;
pub mod table;
pub mod conv;
pub mod facts;
pub mod trans;
pub mod cmu;
pub mod laws;
