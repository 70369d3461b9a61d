//! The conversion scenarios, driven through the public entry points.

use kana::trans::to_hiragana;
use kana::trans::to_katakana;
use kana::trans::to_roomaji_hiragana;
use kana::trans::to_roomaji_katakana;

#[test]
fn trans_test_hiragana_vowel_inputs() {
    assert_eq!("\u{3042}\u{3048}\u{3044}\u{304a}\u{3046}", to_hiragana("aeiou", false).unwrap());
}

#[test]
fn trans_test_hiragana_capital_vowel_inputs() {
    assert_eq!("\u{304a}\u{3046}", to_hiragana("OU", false).unwrap());
}

#[test]
fn trans_test_hiragana_open_syllables() {
    assert_eq!("\u{304d}\u{3064}\u{306d}", to_hiragana("kitsune", false).unwrap());
}

#[test]
fn trans_test_hiragana_capital_open_syllables() {
    assert_eq!("\u{304d}\u{3064}\u{306d}", to_hiragana("KiTsuNE", false).unwrap());
}

#[test]
fn trans_test_hiragana_closed_final_syllable() {
    assert_eq!("\u{3054}\u{304a}\u{3093}", to_hiragana("goon", false).unwrap());
}

#[test]
fn trans_test_hiragana_closed_syllables() {
    assert_eq!("\u{306f}\u{3093}\u{3069}", to_hiragana("hando", false).unwrap());
}

#[test]
fn trans_test_hiragana_geminates() {
    assert_eq!("\u{304c}\u{3063}\u{3053}\u{3046}", to_hiragana("gakkou", false).unwrap());
}

#[test]
fn trans_test_hiragana_multiple_words_with_whitespace() {
    assert_eq!(
        "\u{304a}\u{306f}\u{3088}\u{3046} \u{3054}\u{3056}\u{3044}\u{307e}\u{3059} !",
        to_hiragana("ohayou gozaimasu !", false).unwrap()
    );
}

#[test]
fn trans_test_hiragana_digraphs() {
    assert_eq!(
        "\u{304c}\u{3063}\u{3053}\u{3046} \u{3067} \u{3044}\u{3063}\u{3057}\u{3087}\u{3046}\u{306b}",
        to_hiragana("gakkou de isshouni", false).unwrap()
    );
}

#[test]
fn trans_test_katakana_vowel_inputs() {
    assert_eq!("\u{30a2}\u{30a8}\u{30a4}\u{30aa}\u{30a6}", to_katakana("aeiou", false).unwrap());
}

#[test]
fn trans_test_katakana_capital_vowel_inputs() {
    assert_eq!("\u{30aa}\u{30a6}", to_katakana("OU", false).unwrap());
}

#[test]
fn trans_test_katakana_open_syllables() {
    assert_eq!("\u{30ad}\u{30c4}\u{30cd}", to_katakana("kitsune", false).unwrap());
}

#[test]
fn trans_test_katakana_capital_open_syllables() {
    assert_eq!("\u{30ad}\u{30c4}\u{30cd}", to_katakana("KItsUNe", false).unwrap());
}

#[test]
fn trans_test_katakana_closed_final_syllable() {
    assert_eq!("\u{30cf}\u{30f3}\u{30c9}", to_katakana("hando", false).unwrap());
}

#[test]
fn trans_test_katakana_geminates() {
    assert_eq!("\u{30ac}\u{30c3}\u{30b3}\u{30a6}", to_katakana("gakkou", false).unwrap());
}

#[test]
fn trans_test_katakana_multiple_words_with_whitespace() {
    assert_eq!(
        "\u{30aa}\u{30cf}\u{30e8}\u{30a6} \u{30b4}\u{30b6}\u{30a4}\u{30de}\u{30b9} !",
        to_katakana("ohayou gozaimasu !", false).unwrap()
    );
}

#[test]
fn trans_test_katakana_digraphs() {
    assert_eq!(
        "\u{30ac}\u{30c3}\u{30b3}\u{30a6} \u{30c7} \u{30a4}\u{30c3}\u{30b7}\u{30e7}\u{30a6}\u{30cb}",
        to_katakana("gakkou de isshouni", false).unwrap()
    );
}

#[test]
fn trans_test_katakana_long_vowel() {
    assert_eq!(
        "\u{30aa}\u{30fc}\u{30ad}\u{30fc}\u{30ca} \u{30c1}\u{30e3}\u{30fc}\u{30cf}\u{30f3}",
        to_katakana("ookiina chaahan", false).unwrap()
    );
}

#[test]
fn trans_test_roomaji_hiragana_open_syllable() {
    assert_eq!("kitsune", to_roomaji_hiragana("\u{304d}\u{3064}\u{306d}").unwrap());
}

#[test]
fn trans_test_roomaji_hiragana_closed_syllable() {
    assert_eq!("hando", to_roomaji_hiragana("\u{306f}\u{3093}\u{3069}").unwrap());
}

#[test]
fn trans_test_roomaji_hiragana_geminates() {
    assert_eq!("gakkou", to_roomaji_hiragana("\u{304c}\u{3063}\u{3053}\u{3046}").unwrap());
}

#[test]
fn trans_test_roomaji_hiragana_multiple_words_with_whitespace() {
    assert_eq!(
        "mai neemu isu maiku",
        to_roomaji_hiragana("\u{307e}\u{3044} \u{306d}\u{3048}\u{3080} \u{3044}\u{3059} \u{307e}\u{3044}\u{304f}").unwrap()
    );
}

#[test]
fn trans_test_roomaji_hiragana_digraphs() {
    assert_eq!("jon myuu", to_roomaji_hiragana("\u{3058}\u{3087}\u{3093} \u{307f}\u{3085}\u{3046}").unwrap());
}

#[test]
fn trans_test_roomaji_katakana_open_syllable() {
    assert_eq!("kitsune", to_roomaji_katakana("\u{30ad}\u{30c4}\u{30cd}").unwrap());
}

#[test]
fn trans_test_roomaji_katakana_closed_syllable() {
    assert_eq!("hando", to_roomaji_katakana("\u{30cf}\u{30f3}\u{30c9}").unwrap());
}

#[test]
fn trans_test_roomaji_katakana_geminates() {
    assert_eq!("gakkou", to_roomaji_katakana("\u{30ac}\u{30c3}\u{30b3}\u{30a6}").unwrap());
}

#[test]
fn trans_test_roomaji_katakana_multiple_words_with_whitespace() {
    assert_eq!(
        "mai neemu isu maiku",
        to_roomaji_katakana("\u{30de}\u{30a4} \u{30cd}\u{30fc}\u{30e0} \u{30a4}\u{30b9} \u{30de}\u{30a4}\u{30af}").unwrap()
    );
}

#[test]
fn trans_test_roomaji_katakana_digraphs() {
    assert_eq!("jon myuu", to_roomaji_katakana("\u{30b8}\u{30e7}\u{30f3} \u{30df}\u{30e5}\u{30fc}").unwrap());
}
