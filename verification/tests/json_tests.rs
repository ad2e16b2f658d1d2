use duckymerone::json::{bool_json, error_json, i64_to_string, json_string, player_json, players_json, u64_to_string};
use duckymerone::player::Player;

fn player(id: Option<i64>, name: &str, token: &str) -> Player {
    Player { id, name: String::from(name), token: String::from(token) }
}

#[test]
fn integers_print_in_decimal() {
    assert_eq!(u64_to_string(0), "0");
    assert_eq!(u64_to_string(42), "42");
    assert_eq!(u64_to_string(18446744073709551615), "18446744073709551615");
    assert_eq!(i64_to_string(0), "0");
    assert_eq!(i64_to_string(7), "7");
    assert_eq!(i64_to_string(-17), "-17");
    assert_eq!(i64_to_string(i64::MAX), "9223372036854775807");
    assert_eq!(i64_to_string(i64::MIN), "-9223372036854775808");
}

#[test]
fn strings_are_quoted_and_escaped() {
    assert_eq!(json_string("Alice"), "\"Alice\"");
    assert_eq!(json_string(""), "\"\"");
    assert_eq!(json_string("a\"b"), "\"a\\\"b\"");
    assert_eq!(json_string("a\\b"), "\"a\\\\b\"");
    assert_eq!(json_string("line\nbreak\ttab\rret"), "\"line\\nbreak\\ttab\\rret\"");
    assert_eq!(json_string("\u{8}\u{c}"), "\"\\b\\f\"");
    assert_eq!(json_string("\u{1}\u{1f}"), "\"\\u0001\\u001f\"");
    assert_eq!(json_string("héllo"), "\"héllo\"");
}

#[test]
fn player_serializes_in_field_order() {
    let p = player(Some(7), "Alice", "abc-def");
    assert_eq!(player_json(&p), "{\"id\":7,\"name\":\"Alice\",\"token\":\"abc-def\"}");
    let q = player(None, "x", "t");
    assert_eq!(player_json(&q), "{\"id\":null,\"name\":\"x\",\"token\":\"t\"}");
}

#[test]
fn player_lists_serialize_as_arrays() {
    assert_eq!(players_json(&vec![]), "[]");
    let ps = vec![player(Some(1), "a", "t1"), player(Some(2), "b", "t2")];
    assert_eq!(
        players_json(&ps),
        "[{\"id\":1,\"name\":\"a\",\"token\":\"t1\"},{\"id\":2,\"name\":\"b\",\"token\":\"t2\"}]"
    );
}

#[test]
fn booleans_serialize_bare() {
    assert_eq!(bool_json(true), "true");
    assert_eq!(bool_json(false), "false");
}

#[test]
fn error_bodies_hold_one_error_field() {
    assert_eq!(error_json("boom"), "{\"error\":\"boom\"}");
    assert_eq!(error_json("a \"quoted\" cause"), "{\"error\":\"a \\\"quoted\\\" cause\"}");
}
