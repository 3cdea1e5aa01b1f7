use std::str::FromStr;

use model_host::argument::{Argument, ArgumentError};
use model_host::text::{char_is_whitespace, same_text, split_once, trim};

fn pair(text: &str) -> (String, String) {
    let argument = Argument::from_str(text).expect("an argument");
    (argument.key, argument.value)
}

#[test]
fn a_plain_pair_is_split_at_the_sign() {
    assert_eq!(pair("width=2"), ("width".to_string(), "2".to_string()));
}

#[test]
fn both_sides_are_trimmed() {
    assert_eq!(pair("  width =\t2.5 \n"), ("width".to_string(), "2.5".to_string()));
}

#[test]
fn only_the_first_sign_splits() {
    assert_eq!(pair("formula=a=b"), ("formula".to_string(), "a=b".to_string()));
    assert_eq!(pair("=="), ("".to_string(), "=".to_string()));
}

#[test]
fn either_side_may_be_empty() {
    assert_eq!(pair("="), ("".to_string(), "".to_string()));
    assert_eq!(pair("depth="), ("depth".to_string(), "".to_string()));
    assert_eq!(pair(" = 3"), ("".to_string(), "3".to_string()));
}

#[test]
fn whitespace_inside_a_side_stays() {
    assert_eq!(pair("my key = my value"), ("my key".to_string(), "my value".to_string()));
}

#[test]
fn text_without_a_sign_is_refused() {
    assert_eq!(Argument::from_str("width").err(), Some(ArgumentError::MissingSeparator));
    assert_eq!(Argument::from_str("").err(), Some(ArgumentError::MissingSeparator));
    assert_eq!(Argument::from_str("   ").err(), Some(ArgumentError::MissingSeparator));
}

#[test]
fn the_refusal_says_what_was_expected() {
    assert_eq!(ArgumentError::MissingSeparator.message(), "Expected a key=value pair");
}

#[test]
fn text_beyond_ascii_is_kept_whole() {
    assert_eq!(
        pair("\u{3000}größe\u{2003}=\u{a0}zwölf\u{2029}"),
        ("größe".to_string(), "zwölf".to_string())
    );
}

#[test]
fn parsing_agrees_with_the_standard_library() {
    let samples = [
        "width=2",
        " a = b ",
        "a=b=c",
        "=",
        "no sign",
        "",
        "\u{85}k\u{1680}=\u{2028}v\u{205f}",
        "k\u{200b}=v",
        "x = \u{feff}y",
        "tab\t=\tvalue\r\n",
    ];
    for sample in samples {
        let expected = sample
            .split_once("=")
            .map(|(key, value)| (key.trim().to_string(), value.trim().to_string()));
        let actual = Argument::from_str(sample).ok().map(|a| (a.key, a.value));
        assert_eq!(actual, expected, "for {:?}", sample);
    }
}

#[test]
fn whitespace_is_what_the_standard_library_calls_whitespace() {
    let mut code: u32 = 0;
    while code <= 0x10FFFF {
        if let Some(c) = char::from_u32(code) {
            assert_eq!(char_is_whitespace(c), c.is_whitespace(), "for U+{:04X}", code);
        }
        code += 1;
    }
}

#[test]
fn trim_removes_whitespace_at_both_ends_only() {
    assert_eq!(trim("  a b  "), "a b");
    assert_eq!(trim("a"), "a");
    assert_eq!(trim(""), "");
    assert_eq!(trim(" \t\n"), "");
    assert_eq!(trim("\u{2000}é\u{200a}"), "é");
    assert_eq!(trim("\u{200b}x"), "\u{200b}x");
}

#[test]
fn split_once_cuts_at_the_first_occurrence() {
    assert_eq!(split_once("a=b=c", '='), Some(("a", "b=c")));
    assert_eq!(split_once("=", '='), Some(("", "")));
    assert_eq!(split_once("abc", '='), None);
    assert_eq!(split_once("ä=ö", '='), Some(("ä", "ö")));
}

#[test]
fn same_text_compares_character_by_character() {
    assert!(same_text("box", "box"));
    assert!(same_text("", ""));
    assert!(!same_text("box", "Box"));
    assert!(!same_text("box", "boxes"));
    assert!(!same_text("boxes", "box"));
    assert!(same_text("grüße", "grüße"));
}
