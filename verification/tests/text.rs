//! Text and number primitives.

use berthos::decimal::{parse_u64, print_i64, print_u64};
use berthos::json::Json;
use berthos::text::{
    alphanumeric, contains, join_by_space, leading_word, lower_char, same, split, starts_with,
    strip_prefix, to_lower, trim, trim_end_slashes, upper_char, white_space,
};

#[test]
fn characters_are_classified_as_std_does() {
    for code in 0..=0x10FFFFu32 {
        if let Some(c) = char::from_u32(code) {
            assert_eq!(white_space(c), c.is_whitespace(), "{code:x}");
            assert_eq!(alphanumeric(c), c.is_ascii_alphanumeric(), "{code:x}");
            assert_eq!(lower_char(c), c.to_ascii_lowercase(), "{code:x}");
            assert_eq!(upper_char(c), c.to_ascii_uppercase(), "{code:x}");
        }
    }
}

#[test]
fn searching_agrees_with_std() {
    let texts = ["", "a", "ab", "aab", "abab", "Grüße", "xaby", "--network host"];
    for hay in texts {
        for needle in texts {
            assert_eq!(contains(hay, needle), hay.contains(needle), "{hay:?} {needle:?}");
            assert_eq!(starts_with(hay, needle), hay.starts_with(needle));
            assert_eq!(strip_prefix(hay, needle).as_deref(), hay.strip_prefix(needle));
            assert_eq!(same(hay, needle), hay == needle);
        }
    }
}

#[test]
fn trimming_and_splitting_agree_with_std() {
    for text in ["", " ", " a ", "a\tb\n", "\u{3000}x\u{a0}", "+a++b", "a/b//", "//"] {
        assert_eq!(trim(text), text.trim());
        assert_eq!(trim_end_slashes(text), text.trim_end_matches('/'));
        let pieces: Vec<&str> = text.split('+').collect();
        assert_eq!(split(text, '+'), pieces);
        assert_eq!(
            leading_word(text),
            text.split_whitespace().next().unwrap_or("")
        );
        assert_eq!(to_lower(text), text.to_ascii_lowercase());
    }
    let parts = vec!["a".to_string(), "".to_string(), "b".to_string()];
    assert_eq!(join_by_space(&parts), "a  b");
}

#[test]
fn numbers_are_printed_and_read_back() {
    for n in [0, 1, 9, 10, 12345, u64::MAX - 1, u64::MAX] {
        assert_eq!(print_u64(n), n.to_string());
        assert_eq!(parse_u64(&print_u64(n)), Some(n));
    }
    for n in [i64::MIN, -10, -1, 0, 7, i64::MAX] {
        assert_eq!(print_i64(n), n.to_string());
    }
    for text in ["", "+", "-1", "+7", "007", "1 ", "18446744073709551616", "x"] {
        assert_eq!(parse_u64(text), text.parse::<u64>().ok(), "{text:?}");
    }
}

#[test]
fn documents_are_read() {
    let json = Json::parse(br#"{"a":[1,true,null,"x"],"b":{"c":-5},"big":18446744073709551615}"#)
        .unwrap();
    let items = json.get("a").unwrap();
    assert_eq!(items.at(0).and_then(Json::as_i64), Some(1));
    assert_eq!(items.at(1).and_then(Json::as_bool), Some(true));
    assert!(matches!(items.at(2), Some(Json::Null)));
    assert_eq!(items.at(3).and_then(Json::as_str), Some("x"));
    assert!(items.at(4).is_none());
    assert_eq!(items.as_array().map(Vec::len), Some(4));
    let inner = json.get("b").and_then(|b| b.get("c"));
    assert_eq!(inner.and_then(Json::as_i64), Some(-5));
    assert_eq!(json.get("big").and_then(Json::as_i64), None);
    assert!(json.get("z").is_none());
    assert_eq!(json.text_or_empty("a"), "");
    assert!(Json::parse(b"{} x").is_err());
    assert!(Json::parse(b"").is_err());
}

#[test]
fn duplicates_are_equal() {
    let text = r#"{"a":[1,{"b":"c"}],"d":null}"#;
    let json = Json::parse(text.as_bytes()).unwrap();
    assert_eq!(format!("{:?}", json.duplicate()), format!("{json:?}"));
}
