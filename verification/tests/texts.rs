use evo_king::json::{
    Fields, collect_texts, get_filled, get_items, get_real, get_text, get_uint, get_written,
    opt_text_value, parse_or_list, parse_or_null, parse_or_object, text_list, text_or_else,
};
use evo_king::keyed::KeyedList;
use evo_king::paths::{join_path, shellexpand};
use evo_king::sql::{
    Column, SqlValue, Statement, check_row, read_decimal_or, read_integer_or, read_text,
    read_text_or,
};
use evo_king::stamp::{FIRST_SECOND, Instant, LAST_SECOND, now_text, rfc3339, stamp_text};
use evo_king::text::{
    begins_with, concat5, contains, decimal_int_text, decimal_text, fit, join, leading, ordered,
    parse_number, replace, split, split_lines, split_words, trim, trim_leading, trim_trailing, white,
};
use serde_json::Value;

fn json(text: &str) -> Value {
    serde_json::from_str(text).unwrap()
}

#[test]
fn white_characters_are_those_of_unicode() {
    for code in 0u32..0x11_0000 {
        if let Some(c) = char::from_u32(code) {
            assert_eq!(white(c), c.is_whitespace(), "{code:x}");
        }
    }
}

#[test]
fn texts_are_split_and_joined() {
    assert_eq!(split("a,b,,c", ','), vec!["a", "b", "", "c"]);
    assert_eq!(split("", ','), vec![""]);
    let parts = vec!["x".to_string(), "".to_string(), "y z".to_string()];
    let joined = join(&parts, ",");
    assert_eq!(joined, "x,,y z");
    assert_eq!(split(&joined, ','), parts);
    assert_eq!(join(&Vec::new(), ","), "");
}

#[test]
fn lines_and_words_are_those_of_std() {
    for text in ["", "\n", "a", "a\n", "a\r\nb", "a\rb\n\nc\r", "\r\n", "x\r\n\r\n", " a\tb \u{3000}c\n"] {
        let lines: Vec<String> = text.lines().map(|l| l.to_string()).collect();
        assert_eq!(split_lines(text), lines, "{text:?}");
        let words: Vec<String> = text.split_whitespace().map(|w| w.to_string()).collect();
        assert_eq!(split_words(text), words, "{text:?}");
        assert_eq!(trim(text), text.trim(), "{text:?}");
    }
}

#[test]
fn starts_of_texts_are_taken() {
    assert_eq!(leading("h\u{e9}llo", 2), "h\u{e9}");
    assert_eq!(leading("abc", 3), "abc");
    assert_eq!(leading("abc", 0), "");
    let text = "a\u{e9}\u{4e16}\u{1f600}b";
    let fitted: Vec<usize> = (0..13).map(|max| fit(text, max).len()).collect();
    assert_eq!(fitted, vec![0, 1, 1, 3, 3, 3, 6, 6, 6, 6, 10, 11, 11]);
    for max in 0..13 {
        assert!(text.starts_with(&fit(text, max)));
    }
}

#[test]
fn pieces_are_found_and_replaced() {
    assert!(contains("abcabd", "abd") && contains("abc", "") && !contains("ab", "abc"));
    assert!(begins_with("evo-king", "evo-") && !begins_with("evo", "evo-"));
    assert_eq!(replace("it's 'so'", '\'', "''"), "it''s ''so''");
    assert_eq!(trim_trailing("1.0,,", ','), "1.0");
    assert_eq!(trim_leading("\"\"x\"", '"'), "x\"");
    assert_eq!(concat5("a", "b", "c", "d", "e"), "abcde");
    assert!(ordered("a", "b") && ordered("a", "a") && ordered("", "a") && !ordered("b", "a"));
}

#[test]
fn numbers_are_written_and_read() {
    assert_eq!(decimal_text(0), "0");
    assert_eq!(decimal_text(u64::MAX), u64::MAX.to_string());
    assert_eq!(decimal_int_text(i64::MIN), i64::MIN.to_string());
    assert_eq!(decimal_int_text(-7), "-7");
    for text in ["0", "16384", "+7", "", "+", "-1", "12a", "18446744073709551615", "18446744073709551616", "007"] {
        assert_eq!(parse_number(text, u64::MAX), text.parse::<u64>().ok(), "{text:?}");
    }
}

#[test]
fn json_is_read() {
    let value = json(r#"{"s":"x","e":"","n":7,"m":-1,"f":1.5,"l":["a",2,"b"],"o":{"k":null}}"#);
    assert_eq!(get_text(&value, "s"), Some("x"));
    assert_eq!(get_text(&value, "n"), None);
    assert_eq!(get_filled(&value, "e"), None);
    assert_eq!(get_filled(&value, "s"), Some("x"));
    assert_eq!(text_or_else(&value, "missing", "other"), "other");
    assert_eq!(get_uint(&value, "n"), Some(7));
    assert_eq!(get_uint(&value, "m"), None);
    assert_eq!(get_real(&value, "f").as_deref(), Some("1.5"));
    assert_eq!(get_real(&value, "n").as_deref(), Some("7"));
    assert_eq!(get_real(&value, "s"), None);
    assert_eq!(get_written(&value, "o").as_deref(), Some(r#"{"k":null}"#));
    assert_eq!(get_written(&value, "missing"), None);
    let items = get_items(&value, "l").unwrap();
    assert_eq!(collect_texts(items), vec!["a", "b"]);
    assert!(get_items(&value, "o").is_none());
    assert_eq!(get_text(&Value::Null, "s"), None);
}

#[test]
fn json_is_written() {
    let value = Fields::new()
        .text("a", "x\"y")
        .with("b", opt_text_value(None))
        .with("c", text_list(&vec!["p".to_string()]))
        .text("a", "z")
        .done();
    assert_eq!(value, json(r#"{"a":"z","b":null,"c":["p"]}"#));
    assert_eq!(Fields::new().text("k", "v").written(), r#"{"k":"v"}"#);
    assert_eq!(parse_or_object("{bad"), json("{}"));
    assert_eq!(parse_or_object("[1]"), json("[1]"));
    assert_eq!(parse_or_list(""), json("[]"));
    assert_eq!(parse_or_null("x"), Value::Null);
}

#[test]
fn times_are_written_as_rfc_3339() {
    assert_eq!(rfc3339(Instant { secs: 0, nanos: 0 }), "1970-01-01T00:00:00+00:00");
    assert_eq!(
        rfc3339(Instant { secs: 1_704_067_200, nanos: 500_000_000 }),
        "2024-01-01T00:00:00.500+00:00"
    );
    assert!(rfc3339(Instant { secs: FIRST_SECOND, nanos: 0 }).starts_with('-'));
    assert!(rfc3339(Instant { secs: LAST_SECOND, nanos: 999_999_999 }).starts_with('+'));
    assert_eq!(stamp_text(Instant { secs: 1_704_067_200, nanos: 7 }), "20240101_000000");
    assert!(stamp_text(Instant { secs: FIRST_SECOND, nanos: 0 }).ends_with("_000000"));
    assert!(stamp_text(Instant { secs: LAST_SECOND, nanos: 0 }).ends_with("_235959"));
    let now = now_text();
    assert!(now.starts_with("20") && now.ends_with("+00:00"));
}

#[test]
fn rows_are_checked_before_they_are_read() {
    let columns = vec![Column::Text, Column::Integer, Column::Decimal];
    let good = vec![
        SqlValue::Text("x".to_string()),
        SqlValue::Integer(1),
        SqlValue::Real("0.5".to_string()),
    ];
    assert!(check_row(&good, &columns));
    assert!(check_row(&vec![SqlValue::Null, SqlValue::Null, SqlValue::Null], &columns));
    assert!(!check_row(&vec![SqlValue::Integer(1), SqlValue::Integer(1), SqlValue::Null], &columns));
    assert!(!check_row(&vec![SqlValue::Text("x".to_string())], &columns));
    assert_eq!(read_text(&good[0]).as_deref(), Some("x"));
    assert_eq!(read_text(&SqlValue::Null), None);
    assert_eq!(read_text_or(&SqlValue::Null, "d"), "d");
    assert_eq!(read_integer_or(&good[1], 9), 1);
    assert_eq!(read_integer_or(&SqlValue::Null, 9), 9);
    assert_eq!(read_decimal_or(&good[2], "0"), "0.5");
    assert_eq!(read_decimal_or(&SqlValue::Null, "0"), "0");
}

#[test]
fn statements_number_their_parameters() {
    let statement = Statement::of("SELECT x WHERE 1=1")
        .filter(" AND a = ?", "", Some("p"))
        .filter(" AND b = ?", "", None)
        .filter(" AND c = ?", "", Some("q"))
        .bind(" LIMIT ?", "", SqlValue::Integer(5));
    assert_eq!(statement.sql, "SELECT x WHERE 1=1 AND a = ?1 AND c = ?2 LIMIT ?3");
    assert_eq!(statement.params.len(), 3);
    assert!(matches!(&statement.params[1], SqlValue::Text(t) if t == "q"));
    assert!(matches!(statement.params[2], SqlValue::Integer(5)));
}

#[test]
fn keys_of_a_list_are_distinct() {
    let mut list: KeyedList<u8> = KeyedList::new();
    list.insert("a".to_string(), 1);
    list.insert("b".to_string(), 2);
    list.insert("a".to_string(), 3);
    assert_eq!(list.len(), 2);
    assert_eq!(list.remove("a"), Some(3));
    assert_eq!(list.remove("a"), None);
    assert_eq!(list.key_at(0), "b");
    assert_eq!(*list.value_at(0), 2);
}

#[test]
fn paths_are_joined_and_expanded() {
    assert_eq!(join_path("/e", "bin"), "/e/bin");
    assert_eq!(join_path("/e/", "bin"), "/e/bin");
    assert_eq!(join_path("", "bin"), "bin");
    assert_eq!(shellexpand("~/.evo-agents", Some("/home/u")), "/home/u/.evo-agents");
    assert_eq!(shellexpand("~/.evo-agents", None), "~/.evo-agents");
    assert_eq!(shellexpand("/opt", Some("/home/u")), "/opt");
    assert_eq!(shellexpand("~", Some("/home/u")), "~");
}
