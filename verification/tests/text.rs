use m8_fsto::text::{
    catenate, contains_text, decimal_string, ends_with, hex2_string, strip_prefix,
};

#[test]
fn decimal_numerals() {
    assert_eq!(decimal_string(0), "0");
    assert_eq!(decimal_string(7), "7");
    assert_eq!(decimal_string(10), "10");
    assert_eq!(decimal_string(127), "127");
    assert_eq!(decimal_string(90210), "90210");
    assert_eq!(decimal_string(usize::MAX), format!("{}", usize::MAX));
}

#[test]
fn hexadecimal_numerals_have_two_digits_at_least() {
    assert_eq!(hex2_string(0), "00");
    assert_eq!(hex2_string(9), "09");
    assert_eq!(hex2_string(10), "0A");
    assert_eq!(hex2_string(15), "0F");
    assert_eq!(hex2_string(16), "10");
    assert_eq!(hex2_string(127), "7F");
    assert_eq!(hex2_string(255), "FF");
    assert_eq!(hex2_string(256), "100");
    assert_eq!(hex2_string(0xBEEF), "BEEF");
}

#[test]
fn texts_are_joined_in_order() {
    assert_eq!(catenate("Samples/", "kick.wav"), "Samples/kick.wav");
    assert_eq!(catenate("", ""), "");
    assert_eq!(catenate("é", "ü"), "éü");
}

#[test]
fn a_list_holds_what_was_put_in() {
    let list = vec!["a".to_string(), "Samples/0_kick.wav".to_string()];
    assert!(contains_text(&list, "Samples/0_kick.wav"));
    assert!(contains_text(&list, "a"));
    assert!(!contains_text(&list, "Samples/0_kick"));
    assert!(!contains_text(&Vec::new(), ""));
}

#[test]
fn a_prefix_is_taken_off() {
    assert_eq!(strip_prefix("/Samples/Kick/808.wav", "/Samples/Kick"), Some("/808.wav"));
    assert_eq!(strip_prefix("/Samples", "/Samples"), Some(""));
    assert_eq!(strip_prefix("/Samples", ""), Some("/Samples"));
    assert_eq!(strip_prefix("/Sample", "/Samples"), None);
    assert_eq!(strip_prefix("", "a"), None);
    assert_eq!(strip_prefix("\u{e9}t\u{e9}/a", "\u{e9}t\u{e9}"), Some("/a"));
}

#[test]
fn a_suffix_is_recognized() {
    assert!(ends_with("song.m8s", ".m8s"));
    assert!(ends_with(".m8s", ".m8s"));
    assert!(ends_with("anything", ""));
    assert!(!ends_with("m8s", ".m8s"));
    assert!(!ends_with("song.m8i", ".m8s"));
    assert!(!ends_with("song.m8s.bak", ".m8s"));
}
