use unpin::json::{
    array, canonicalize, compact_json, optional_text, optional_value, signed_field, text,
    text_array, text_field, unsigned_field, Json, ObjectBuilder,
};
use unpin::ordering::{
    distinct_texts, put_rank_once, put_text_once, sort_entries, OrderedEntry, RankedName,
};
use unpin::report::print_report;
use unpin::text::{
    begins_with, bool_text, byte_len, chars_of, contains_text, cut_text, is_blank,
    is_control_byte_free, is_control_free, is_hex_text, is_plain_name, join_texts, joined, part_of,
    same_bytes, same_text, text_of, to_decimal, to_hex, to_lower_text, trim_text,
};
use unpin::text_map::{at_most, TextMap};

fn words(list: &[&str]) -> Vec<String> {
    list.iter().map(|word| word.to_string()).collect()
}

fn object(members: Vec<(&str, Json)>) -> Json {
    let mut out = ObjectBuilder::new();
    for (key, value) in members {
        out.put(key, value);
    }
    out.finish()
}

#[test]
fn texts_are_measured_in_bytes() {
    assert_eq!(byte_len("a\u{e9}\u{1f600}"), 7);
    assert_eq!(byte_len(""), 0);
    assert_eq!(chars_of("a\u{e9}").len(), 2);
    assert_eq!(text_of(&['a', '\u{e9}']), "a\u{e9}");
    assert!(same_text("a\u{e9}", "a\u{e9}"));
    assert!(!same_text("a", "a\u{e9}"));
    assert!(same_bytes(b"ab", b"ab"));
    assert!(!same_bytes(b"ab", b"ac"));
}

#[test]
fn control_characters_are_found() {
    assert!(is_control_free("a b\u{e9}"));
    assert!(!is_control_free("a\tb"));
    assert!(!is_control_free("a\u{85}b"));
    assert!(is_control_byte_free(b"ab"));
    assert!(!is_control_byte_free(b"a\x7f"));
    assert!(is_blank(" \t\u{2003}"));
    assert!(!is_blank(" x "));
    assert_eq!(trim_text(" \u{2003}x y\n"), "x y");
}

#[test]
fn texts_are_taken_apart_and_put_together() {
    assert_eq!(to_lower_text("AbC\u{c9}"), "abc\u{c9}");
    assert!(is_hex_text(&"0aF".repeat(2)));
    assert!(!is_hex_text("0g"));
    assert!(is_plain_name("a-b_9", &['-', '_']));
    assert!(!is_plain_name("a b", &['-', '_']));
    assert_eq!(to_hex(&[0, 15, 255]), "000fff");
    assert_eq!(to_decimal(0), "0");
    assert_eq!(to_decimal(u64::MAX), "18446744073709551615");
    assert_eq!(joined("a", "b"), "ab");
    assert!(contains_text("abcabd", "abd"));
    assert!(contains_text("abc", ""));
    assert!(!contains_text("abc", "acb"));
    assert!(begins_with("abc", "ab"));
    assert!(!begins_with("abc", "b"));
    assert_eq!(part_of("a\u{e9}bc", 1, 3), "\u{e9}b");
    assert_eq!(cut_text("a:b:c:d", ':', 3), ["a", "b", "c:d"]);
    assert_eq!(cut_text("", ':', 3), [""]);
    assert_eq!(bool_text(true), "true");
    assert_eq!(join_texts(&words(&["a", "b", "c"]), ", "), "a, b, c");
    assert_eq!(join_texts(&Vec::new(), ", "), "");
}

#[test]
fn maps_keep_their_keys_in_order() {
    let mut map: TextMap<u8> = TextMap::new();
    for key in ["b", "a\u{e9}", "a", "b"] {
        let n = map.len();
        map.insert(key, n as u8);
    }
    assert_eq!(map.len(), 3);
    assert_eq!((map.key_at(0), map.key_at(1), map.key_at(2)), ("a", "a\u{e9}", "b"));
    assert_eq!(map.get("b").copied(), Some(3));
    assert!(map.remove("a").is_some());
    assert!(map.remove("a").is_none());
    assert!(!map.contains_key("a"));
    assert_eq!(*map.value_at(1), 3);
    assert!(at_most("a", "a"));
    assert!(at_most("Z", "a"));
    assert!(!at_most("ab", "a"));
}

#[test]
fn entries_are_sorted_by_key_and_keep_ties_in_place() {
    let entry = |key: &str, rank: u64, value: u8| OrderedEntry { key: key.to_string(), rank, value };
    let sorted = sort_entries(vec![
        entry("b", 0, 1),
        entry("a", 2, 2),
        entry("a", 1, 3),
        entry("a", 1, 4),
    ]);
    let values: Vec<u8> = sorted.iter().map(|entry| entry.value).collect();
    assert_eq!(values, [3, 4, 2, 1]);
}

#[test]
fn sets_of_texts_have_no_duplicates() {
    assert_eq!(distinct_texts(&words(&["b", "a", "b"])), ["a", "b"]);
    let mut list = Vec::new();
    put_text_once(&mut list, "x");
    put_text_once(&mut list, "a");
    put_text_once(&mut list, "x");
    assert_eq!(list, ["a", "x"]);
    let mut ranked: Vec<RankedName> = Vec::new();
    put_rank_once(&mut ranked, 2, "two");
    put_rank_once(&mut ranked, 1, "one");
    put_rank_once(&mut ranked, 2, "two");
    let names: Vec<&str> = ranked.iter().map(|entry| entry.name.as_str()).collect();
    assert_eq!(names, ["one", "two"]);
}

#[test]
fn fields_are_read_by_type() {
    let value = object(vec![
        ("text", text("a")),
        ("count", Json::Unsigned(7)),
        ("below", Json::Negative(-7)),
    ]);
    assert_eq!(text_field(&value, "text"), Some("a"));
    assert_eq!(text_field(&value, "count"), None);
    assert_eq!(unsigned_field(&value, "count"), Some(7));
    assert_eq!(unsigned_field(&value, "below"), None);
    assert_eq!(signed_field(&value, "below"), Some(-7));
    assert_eq!(signed_field(&value, "count"), Some(7));
    assert_eq!(Json::Unsigned(u64::MAX).as_i64(), None);
    assert!(value.is_object());
    assert!(value.get("missing").is_none());
    assert_eq!(compact_json(&value.duplicate()), compact_json(&value));
}

#[test]
fn values_are_written_compactly_and_prettily() {
    let value = object(vec![
        ("b", array(vec![Json::Null, Json::Bool(true)])),
        ("a", text("q\"\n")),
        ("c", Json::Negative(-2)),
        ("d", optional_text(&None)),
        ("e", text_array(&words(&["x"]))),
        ("f", optional_value(&Some(Json::Unsigned(1)))),
    ]);
    assert_eq!(
        compact_json(&value).as_deref(),
        Some("{\"a\":\"q\\\"\\n\",\"b\":[null,true],\"c\":-2,\"d\":null,\"e\":[\"x\"],\"f\":1}")
    );
    let small = object(vec![("a", array(vec![Json::Unsigned(1)]))]);
    assert_eq!(
        print_report(true, &small, words(&["line"])),
        Some(words(&["{\n  \"a\": [\n    1\n  ]\n}"]))
    );
    assert_eq!(print_report(false, &small, words(&["one", "two"])), Some(words(&["one", "two"])));
}

#[test]
fn canonical_values_do_not_depend_on_member_order() {
    let one = object(vec![("b", Json::Null), ("a", object(vec![("d", Json::Null), ("c", Json::Null)]))]);
    let other =
        object(vec![("a", object(vec![("c", Json::Null), ("d", Json::Null)])), ("b", Json::Null)]);
    let canonical = canonicalize(&one);
    assert_eq!(compact_json(&canonical), compact_json(&canonicalize(&other)));
    let members = canonical.as_object().expect("an object");
    assert_eq!(members[0].key, "a");
    assert_eq!(compact_json(&canonicalize(&canonical)), compact_json(&canonical));
}
