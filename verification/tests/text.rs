//! Texts, tables and JSON values.

use laplus::json;
use laplus::json::Json;
use laplus::keyed::Keyed;
use laplus::provider::DriverKind;
use laplus::text;

#[test]
fn texts_are_taken_apart_and_put_together() {
    assert_eq!(text::split_on("a:b::c", ":"), ["a", "b", "", "c"]);
    assert_eq!(text::join_with(&text::split_on("a:b::c", ":"), ":"), "a:b::c");
    assert_eq!(text::replace("aXbX", "X", "--"), "a--b--");
    assert_eq!(text::replace_first("aXbX", "X", "--"), "a--bX");
    assert_eq!(text::trim(" \t\u{a0}x y\u{3000}\n"), "x y");
    assert_eq!(text::lines_of("a\r\nb\n\nc"), ["a", "b", "", "c"]);
    assert_eq!(text::lines_of(""), Vec::<String>::new());
    assert_eq!(text::strip_prefix("Bearer x", "Bearer ").as_deref(), Some("x"));
    assert_eq!(text::strip_prefix("Basic x", "Bearer "), None);
    assert!(text::ends_with("a.lock", ".lock") && !text::ends_with("lock", ".lock"));
    assert_eq!(text::trim_trailing("a...", '.'), "a");
    assert_eq!(text::to_ascii_lower("AbÉ"), "abÉ");
    assert_eq!(text::capitalise("éa"), "éa");
    assert_eq!(text::capitalise("codex"), "Codex");
    assert_eq!(text::capitalise(""), "");
}

#[test]
fn numbers_are_read_as_they_are_written() {
    for n in [0u64, 7, 10, 127, 65_535, u64::MAX] {
        assert_eq!(text::decimal_text(n), n.to_string());
        assert_eq!(text::number(&n.to_string(), u64::MAX), Some(n));
    }
    assert_eq!(text::number("256", 255), None);
    assert_eq!(text::number("", 255), None);
    assert_eq!(text::number("1a", 255), None);
    assert!(text::is_ipv4("127.0.0.1") && !text::is_ipv4("127.0.0") && !text::is_ipv4("127.0.0.01"));
    assert!(text::is_loopback_v4("127.255.0.1"));
    assert!(!text::is_loopback_v4("12.7.0.1") && !text::is_loopback_v4("1.27.0.1"));
    assert!(text::takes_more_than("é", 1) && !text::takes_more_than("é", 2));
}

#[test]
fn texts_are_in_the_order_of_their_characters() {
    let mut words = vec!["b", "", "ab", "é", "a", "z"];
    words.sort();
    for pair in words.windows(2) {
        assert!(text::precedes(pair[0], pair[1]));
        assert!(!text::precedes(pair[1], pair[0]));
    }
    assert!(!text::precedes("a", "a"));
}

#[test]
fn a_table_keeps_its_keys_in_order() {
    let mut table = Keyed::new();
    for (key, value) in [("b", 1), ("a", 2), ("c", 3), ("b", 4)] {
        table.insert(key.to_owned(), value);
    }
    assert_eq!(table.len(), 3);
    assert_eq!(table.get("b"), Some(&4));
    assert!(table.contains("a") && !table.contains("d"));
    assert_eq!(table.key_at(0), "a");
    assert_eq!(table.value_at(2), &3);
    assert_eq!(table.remove("a"), Some(2));
    assert_eq!(table.remove("a"), None);
    assert_eq!(table.take(), vec![("b".to_owned(), 4), ("c".to_owned(), 3)]);
    assert_eq!(table.len(), 0);
}

#[test]
fn a_field_is_set_in_its_place() {
    let mut fields = vec![json::entry("a", Json::Null), json::entry("c", Json::Bool(true))];
    json::set(&mut fields, "b", Json::Whole(1));
    json::set(&mut fields, "c", Json::text("x"));
    json::set(&mut fields, "d", Json::maybe(&None));
    assert_eq!(
        fields.iter().map(|field| field.0.as_str()).collect::<Vec<_>>(),
        ["a", "b", "c", "d"]
    );
    assert_eq!(json::find(&fields, "c"), Some(&Json::text("x")));
    assert_eq!(json::find(&fields, "e"), None);
    let whole = Json::object(fields);
    assert_eq!(whole.copy(), whole);
    assert_eq!(Json::array(vec![Json::Null]).as_array().map(|items| items.len()), Some(1));
}

#[test]
fn a_driver_is_read_back_from_its_word() {
    for driver in [DriverKind::Claude, DriverKind::Codex, DriverKind::OpenCode] {
        assert_eq!(DriverKind::named(driver.as_str()), Some(driver));
    }
    assert_eq!(DriverKind::named("codexAgent"), None);
    assert_eq!(DriverKind::Codex.command_name(), "codex");
    assert_eq!(DriverKind::OpenCode.command_name(), "opencode");
}
