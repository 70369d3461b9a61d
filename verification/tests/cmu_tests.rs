//! The phonetic bridge, with small dictionaries standing in for the
//! files that an application would load.

use kana::cmu::cmu_hiragana;
use kana::cmu::cmu_katakana;
use kana::cmu::eng_to_jap;
use kana::table::Table;

fn cmu_fixture() -> (Table, Table) {
    let mut cmumap = Table::new();
    cmumap.insert(String::from("AARON"), String::from("EH1 R AH0 N"));
    cmumap.insert(String::from("GAVIN"), String::from("G AE1 V IH0 N"));
    let mut japmap = Table::new();
    japmap.insert(String::from("EH"), String::from("E"));
    japmap.insert(String::from("R"), String::from("R"));
    japmap.insert(String::from("AH"), String::from("A"));
    japmap.insert(String::from("N"), String::from("N"));
    japmap.insert(String::from("G"), String::from("G"));
    japmap.insert(String::from("AE"), String::from("A"));
    japmap.insert(String::from("V"), String::from("B"));
    japmap.insert(String::from("IH"), String::from("E"));
    (cmumap, japmap)
}

#[test]
fn cmu_cmu_katakana_test() {
    let (cmumap, japmap) = cmu_fixture();
    assert_eq!("\u{30a8}\u{30e9}\u{30f3}", cmu_katakana("aaron", &cmumap, &japmap).unwrap());
}

#[test]
fn cmu_cmu_hiragana_test() {
    let (cmumap, japmap) = cmu_fixture();
    assert_eq!("\u{304c}\u{3079}\u{3093}", cmu_hiragana("Gavin", &cmumap, &japmap).unwrap());
}

#[test]
fn cmu_cmu_dict_tests() {
    let (cmumap, japmap) = cmu_fixture();
    assert_eq!(
        eng_to_jap("AARON", &cmumap, &japmap).unwrap(),
        vec![
            "E".to_string(),
            "R".to_string(),
            "A".to_string(),
            "N".to_string(),
        ],
        "AARON failed."
    );
}
