//! Concrete instances of the library's properties: round trips, case
//! folding, gemination, long vowels, the error cases, and the content
//! of the generated tables.

use kana::conv::initialize_japanese_syllables;
use kana::conv::initialize_hiragana_keys;
use kana::conv::initialize_katakana_keys;
use kana::conv::initialize_hiragana;
use kana::conv::initialize_katakana;
use kana::conv::initilize_roomaji;
use kana::trans::to_japanese_syllables;
use kana::trans::to_hiragana;
use kana::trans::to_katakana;
use kana::trans::to_roomaji_hiragana;
use kana::trans::to_roomaji_katakana;
use kana::cmu::cmu_hiragana;
use kana::cmu::eng_to_jap;
use kana::table::Table;

#[test]
fn round_trip_hiragana_open_syllables() {
    let kana = to_hiragana("kitsune", false).unwrap();
    assert_eq!("kitsune", to_roomaji_hiragana(&kana).unwrap());
}

#[test]
fn round_trip_hiragana_digraph() {
    let kana = to_hiragana("kyousha", false).unwrap();
    assert_eq!("kyousha", to_roomaji_hiragana(&kana).unwrap());
}

#[test]
fn round_trip_katakana_long_vowel() {
    let kana = to_katakana("ookii", false).unwrap();
    assert_eq!("ookii", to_roomaji_katakana(&kana).unwrap());
}

#[test]
fn case_folding_agrees_with_lower_case() {
    assert_eq!(
        to_hiragana("KiTsUnE", false).unwrap(),
        to_hiragana("kitsune", false).unwrap()
    );
    assert_eq!(
        to_katakana("GAKKOU", false).unwrap(),
        to_katakana("gakkou", false).unwrap()
    );
}

#[test]
fn gemination_collapses_to_marker() {
    let toks = to_japanese_syllables("kka", false);
    assert_eq!(toks, vec!["G".to_string(), "ka".to_string()]);
    let toks = to_japanese_syllables("gakkou", false);
    assert_eq!(
        toks,
        vec![
            "ga".to_string(),
            "G".to_string(),
            "ko".to_string(),
            "u".to_string(),
        ]
    );
}

#[test]
fn long_vowel_is_katakana_only() {
    assert_eq!("\u{30aa}\u{30fc}", to_katakana("oo", false).unwrap());
    assert_eq!("\u{304a}\u{304a}", to_hiragana("oo", false).unwrap());
}

#[test]
fn english_mode_merges_consonant_and_vowel() {
    let toks = to_japanese_syllables("grab", true);
    assert_eq!(
        toks,
        vec!["g".to_string(), "ra".to_string(), "b".to_string()]
    );
}

#[test]
fn empty_input_converts_to_empty_output() {
    assert_eq!("", to_hiragana("", false).unwrap());
    assert_eq!("", to_katakana("", false).unwrap());
    assert_eq!("", to_roomaji_hiragana("").unwrap());
}

#[test]
fn syllable_without_kana_is_an_error() {
    assert_eq!(
        to_hiragana("yi", false).unwrap_err(),
        "Unable to parse input"
    );
    assert_eq!(
        to_katakana("yi", false).unwrap_err(),
        "Unable to parse input"
    );
}

#[test]
fn unknown_character_fails_romanization() {
    assert_eq!(to_roomaji_hiragana("k").unwrap_err(), "Unable to parse input");
}

#[test]
fn missing_word_is_a_distinct_error() {
    let cmumap = Table::new();
    let japmap = Table::new();
    assert_eq!(
        cmu_hiragana("zzz", &cmumap, &japmap).unwrap_err(),
        "not found in cmu"
    );
}

#[test]
fn missing_phone_is_a_distinct_error() {
    let mut cmumap = Table::new();
    cmumap.insert(String::from("AARON"), String::from("EH1 R AH0 N"));
    let japmap = Table::new();
    assert_eq!(
        eng_to_jap("aaron", &cmumap, &japmap).unwrap_err(),
        "not in japanese-ready dictionary"
    );
}

#[test]
fn stress_digits_are_stripped() {
    let mut cmumap = Table::new();
    cmumap.insert(String::from("A"), String::from("AH0"));
    let mut japmap = Table::new();
    japmap.insert(String::from("AH"), String::from("A"));
    assert_eq!(
        eng_to_jap("a", &cmumap, &japmap).unwrap(),
        vec!["A".to_string()]
    );
}

#[test]
fn syllabary_has_canonical_order_and_spellings() {
    let syllabary = initialize_japanese_syllables();
    assert_eq!(syllabary.len(), 111);
    assert_eq!(syllabary[0], "a");
    assert_eq!(syllabary[4], "o");
    assert_eq!(syllabary[5], "ka");
    assert_eq!(syllabary[16], "shi");
    assert_eq!(syllabary[26], "chi");
    assert_eq!(syllabary[27], "tsu");
    assert_eq!(syllabary[42], "fu");
    assert_eq!(syllabary[21], "ji");
    assert_eq!(syllabary[108], "n");
    assert_eq!(syllabary[109], "G");
    assert_eq!(syllabary[110], "je");
}

#[test]
fn key_lists_match_the_syllabary() {
    assert_eq!(initialize_hiragana_keys().len(), 111);
    assert_eq!(initialize_katakana_keys().len(), 112);
}

#[test]
fn kana_tables_bind_syllables_and_fallbacks() {
    let hiragana = initialize_hiragana();
    assert_eq!(hiragana.get("ka").unwrap(), "\u{304b}");
    assert_eq!(hiragana.get("shi").unwrap(), "\u{3057}");
    assert_eq!(hiragana.get("b").unwrap(), "\u{3076}");
    assert!(hiragana.get("yi").is_none());
    assert!(hiragana.get("L").is_none());
    let katakana = initialize_katakana();
    assert_eq!(katakana.get("ka").unwrap(), "\u{30ab}");
    assert_eq!(katakana.get("L").unwrap(), "\u{30fc}");
    assert!(katakana.get("wu").is_none());
}

#[test]
fn roomaji_tables_invert_the_zip() {
    let keys = initialize_hiragana_keys();
    let roomaji = initilize_roomaji(&keys);
    assert_eq!(roomaji.get("\u{304b}").unwrap(), "ka");
    assert_eq!(roomaji.get("\u{3057}").unwrap(), "shi");
    assert_eq!(roomaji.get("\u{3063}").unwrap(), "G");
    // The archaic wi kana is bound twice in the key list, and the
    // later binding wins.
    assert_eq!(roomaji.get("\u{3090}").unwrap(), "we");
}

#[test]
fn table_insert_get_and_remove() {
    let mut t = Table::new();
    assert!(t.get("x").is_none());
    t.insert(String::from("x"), String::from("1"));
    t.insert(String::from("y"), String::from("2"));
    assert_eq!(t.get("x").unwrap(), "1");
    t.insert(String::from("x"), String::from("3"));
    assert_eq!(t.get("x").unwrap(), "3");
    t.remove("x");
    assert!(t.get("x").is_none());
    assert_eq!(t.get("y").unwrap(), "2");
}
