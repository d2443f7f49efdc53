//! Text, JSON and TOML.
use byob_proxy::json::{find_json, first_json_value, parse_json, Json};
use byob_proxy::lists::reversed;
use byob_proxy::text::{
    decimal_of, digits_of, find, join, lines, parse_u64, same_ignoring_case, split_class,
    split_whitespace, strip_prefix, strip_prefixes, strip_suffix, to_ascii_lowercase, trim,
    trim_class, truncate, CharClass,
};
use byob_proxy::toml::{parse_toml, Toml};

#[test]
fn text_is_cut_and_joined_as_std_does() {
    let samples = ["", " ", "a", " a b ", "a\nb\r\nc\r", "\u{a0}x\u{2003}", "--a-b--", "\r\n\n", "\u{e4} \u{1f600}"];
    for sample in samples {
        assert_eq!(trim(sample), sample.trim());
        assert_eq!(lines(sample), sample.lines().map(str::to_string).collect::<Vec<_>>());
        assert_eq!(
            split_whitespace(sample),
            sample.split_whitespace().map(str::to_string).collect::<Vec<_>>()
        );
        assert_eq!(to_ascii_lowercase(sample), sample.to_ascii_lowercase());
        assert_eq!(trim_class(sample, CharClass::Is('-')), sample.trim_matches('-'));
        assert_eq!(
            split_class(sample, CharClass::Is('-')),
            sample.split('-').map(str::to_string).collect::<Vec<_>>()
        );
        for part in ["a", "b", "-", "\n", "\u{1f600}"] {
            let byte = sample.find(part).map(|at| sample[..at].chars().count());
            assert_eq!(find(sample, part), byte);
            assert_eq!(strip_prefix(sample, part), sample.strip_prefix(part));
            assert_eq!(strip_suffix(sample, part), sample.strip_suffix(part));
            assert_eq!(strip_prefixes(sample, part), sample.trim_start_matches(part));
        }
    }
    assert_eq!(join(&vec!["a".to_string(), "b".to_string()], ", "), "a, b");
    assert!(same_ignoring_case("Client-IDE", "client-ide"));
    assert!(!same_ignoring_case("\u{c4}", "\u{e4}"));
}

#[test]
fn numbers_are_written_and_read() {
    assert_eq!(digits_of(0), "0");
    assert_eq!(digits_of(u64::MAX), u64::MAX.to_string());
    assert_eq!(decimal_of(i64::MIN), i64::MIN.to_string());
    assert_eq!(decimal_of(-7), "-7");
    for sample in ["0", "007", "+5", "18446744073709551615", "18446744073709551616", "", "+", "-1", " 1", "1a"] {
        assert_eq!(parse_u64(sample), sample.parse::<u64>().ok());
    }
}

#[test]
fn long_text_is_cut_off() {
    assert_eq!(truncate("\u{e4}bc", 3), "\u{e4}bc");
    assert_eq!(truncate("\u{e4}bcd", 3), "\u{e4}bc\n...[truncated]");
    assert_eq!(truncate("", 0), "");
}

#[test]
fn lists_are_turned_round() {
    assert_eq!(reversed(vec![1, 2, 3]), vec![3, 2, 1]);
}

#[test]
fn json_is_read_and_written() {
    let text = "{\"a\":[1,-2,1.5,true,null,\"\\\"\\\\\\n\\u0001\u{e4}\"],\"b\":{}}";
    let value = parse_json(text).unwrap();
    assert_eq!(value.to_text(), text);
    assert_eq!(value.copy().to_text(), text);
    assert_eq!(value.to_text(), text.parse::<serde_json::Value>().unwrap().to_string());
    assert_eq!(value.get_array("a").unwrap()[0].as_u64(), Some(1));
    assert_eq!(value.get_array("a").unwrap()[1].as_u64(), None);
    assert_eq!(value.get_str("a"), None);
    assert!(value.get("c").is_none());
    assert!(parse_json("{").is_err());
    assert_eq!(
        parse_json("{").map(|_| ()).unwrap_err(),
        serde_json::from_str::<serde_json::Value>("{").unwrap_err().to_string()
    );
    let all: String = (0u32..0x300).filter_map(char::from_u32).collect();
    assert_eq!(Json::text(&all).to_text(), serde_json::Value::String(all.clone()).to_string());
    assert_eq!(Json::integer(-5).to_text(), "-5");
    assert_eq!(Json::unsigned(u64::MAX).to_text(), u64::MAX.to_string());
    assert_eq!(Json::texts(&vec!["a".to_string()]).to_text(), "[\"a\"]");
    assert_eq!(parse_json(r#"{"a":1,"a":2}"#).unwrap().to_text(), r#"{"a":2}"#);
}

#[test]
fn the_first_of_several_values_is_found() {
    assert_eq!(first_json_value("{\"a\":1}{").unwrap().to_text(), "{\"a\":1}");
    assert_eq!(first_json_value("1 2").unwrap().to_text(), "1");
    assert!(first_json_value("x").is_none());
    assert!(first_json_value("").is_none());
    assert_eq!(find_json("[1][2]").unwrap().to_text(), "[1]");
    assert_eq!(find_json("[1]").unwrap().to_text(), "[1]");
}

#[test]
fn toml_is_read() {
    let doc = parse_toml("a = \"x\"\nn = 1\ni = { k = \"v\", n = 2 }\n[t.u]\nb = \"y\"\n").unwrap();
    assert_eq!(doc.get_str("a"), Some("x"));
    assert_eq!(doc.get_str("n"), None);
    assert_eq!(doc.table_in("t", "u").unwrap().get_str("b"), Some("y"));
    assert!(doc.table_in("t", "v").is_none());
    assert!(matches!(doc.get("i"), Some(Toml::Inline(entries))
        if entries.len() == 2 && entries[0].1.as_deref() == Some("v") && entries[1].1.is_none()));
    assert!(parse_toml("a = ").is_err());
}
