use rs_pixel::util::generic_json::{Json, Property, Raw};

fn doc(text: &str) -> Json {
    Json::parse(text.as_bytes()).expect("valid JSON")
}

#[test]
fn parses_each_kind_of_value() {
    assert_eq!(doc("null"), Json::Null);
    assert_eq!(doc("true"), Json::Bool(true));
    assert_eq!(doc("false"), Json::Bool(false));
    assert_eq!(doc("42"), Json::Int(42));
    assert_eq!(doc("-7"), Json::Int(-7));
    assert_eq!(doc("\"AQID\""), Json::Str("AQID".to_string()));
    assert_eq!(doc("[]"), Json::Array(vec![]));
    assert_eq!(doc("{}"), Json::Object(vec![]));
    assert_eq!(
        doc("[1, \"a\", [true]]"),
        Json::Array(vec![
            Json::Int(1),
            Json::Str("a".to_string()),
            Json::Array(vec![Json::Bool(true)])
        ])
    );
    assert_eq!(
        doc("{\"a\": 1, \"b\": {\"c\": null}}"),
        Json::Object(vec![
            ("a".to_string(), Json::Int(1)),
            ("b".to_string(), Json::Object(vec![("c".to_string(), Json::Null)]))
        ])
    );
}

#[test]
fn rejects_what_is_no_document() {
    assert_eq!(Json::parse(b""), None);
    assert_eq!(Json::parse(b"{"), None);
    assert_eq!(Json::parse(b"<html>"), None);
    assert_eq!(Json::parse(b"1 2"), None);
    assert_eq!(Json::parse(b"{\"a\": }"), None);
    assert_eq!(Json::parse(&[0xff, 0xfe]), None);
}

#[test]
fn keeps_large_and_fractional_numbers_apart() {
    assert_eq!(doc("9223372036854775807"), Json::Int(i64::MAX as i128));
    assert_eq!(doc("-9223372036854775808"), Json::Int(i64::MIN as i128));
    assert_eq!(doc("18446744073709551615"), Json::Int(u64::MAX as i128));
    assert_eq!(doc("1.5"), Json::Real(1.5f64.to_bits(), 1));
    assert_eq!(doc("-2.75"), Json::Real((-2.75f64).to_bits(), -2));
    assert_eq!(doc("12345.678"), Json::Real(12345.678f64.to_bits(), 12345));
    assert_eq!(doc("1e3"), Json::Real(1000f64.to_bits(), 1000));
    assert_eq!(doc("1e300"), Json::Real(1e300f64.to_bits(), i64::MAX));
}

#[test]
fn reads_values_by_kind() {
    assert_eq!(doc("true").as_bool(), Some(true));
    assert_eq!(doc("1").as_bool(), None);
    assert_eq!(doc("5").as_i64(), Some(5));
    assert_eq!(doc("5.0").as_i64(), None);
    assert_eq!(doc("18446744073709551615").as_i64(), None);
    assert_eq!(doc("\"5\"").as_i64(), None);
    assert_eq!(doc("5").as_whole(), Some(5));
    assert_eq!(doc("5.9").as_whole(), Some(5));
    assert_eq!(doc("-5.9").as_whole(), Some(-5));
    assert_eq!(doc("18446744073709551615").as_whole(), Some(i64::MAX));
    assert_eq!(doc("null").as_whole(), None);
    assert_eq!(doc("\"x\"").as_str(), Some("x"));
    assert_eq!(doc("1").as_str(), None);
    assert!(doc("null").is_null());
    assert!(!doc("0").is_null());
    assert!(doc("[]").is_array());
    assert!(!doc("{}").is_array());
    assert_eq!(doc("[1]").as_array(), Some(&vec![Json::Int(1)]));
    assert_eq!(doc("{}").as_array(), None);
    assert_eq!(doc("{\"a\":1}").as_object(), Some(&vec![("a".to_string(), Json::Int(1))]));
    assert_eq!(doc("[]").as_object(), None);
}

#[test]
fn finds_members_and_elements() {
    let json = doc("{\"a\": 1, \"b\": [10, 20]}");
    assert_eq!(json.get("a"), Some(&Json::Int(1)));
    assert_eq!(json.get("c"), None);
    assert_eq!(json.get(""), None);
    assert_eq!(json.get_index(0), None);
    let list = json.get("b").unwrap();
    assert_eq!(list.get_index(0), Some(&Json::Int(10)));
    assert_eq!(list.get_index(1), Some(&Json::Int(20)));
    assert_eq!(list.get_index(2), None);
    assert_eq!(list.get("0"), None);
}

#[test]
fn first_member_of_a_name_wins() {
    let json = Json::Object(vec![
        ("a".to_string(), Json::Int(1)),
        ("a".to_string(), Json::Int(2)),
    ]);
    assert_eq!(json.get("a"), Some(&Json::Int(1)));
}

#[test]
fn walks_dotted_paths() {
    let json = doc(
        "{\"stats\": {\"games\": [{\"name\": \"one\"}, {\"name\": \"two\"}], \"\": 7}, \"n\": 3}",
    );
    assert_eq!(json.get_property(""), Some(&json));
    assert_eq!(json.get_property("n"), Some(&Json::Int(3)));
    assert_eq!(json.get_str_property("stats.games.0.name"), Some("one"));
    assert_eq!(json.get_str_property("stats.games.1.name"), Some("two"));
    assert_eq!(json.get_str_property("stats.games.+1.name"), Some("two"));
    assert_eq!(json.get_property("stats.games.2.name"), None);
    assert_eq!(json.get_property("stats.games.-1.name"), None);
    assert_eq!(json.get_property("stats.games.x"), None);
    assert_eq!(json.get_property("stats.games.name"), None);
    assert_eq!(json.get_property("n.deeper"), None);
    assert_eq!(json.get_property("missing.n"), None);
    assert_eq!(json.get_property("stats."), Some(&Json::Int(7)));
    assert_eq!(json.get_property("stats.."), None);
    assert_eq!(json.get_property(".n"), None);
    assert_eq!(json.get_property("."), None);
}

#[test]
fn reads_properties_by_kind() {
    let json = doc("{\"a\": {\"s\": \"text\", \"i\": 4, \"f\": 4.75, \"l\": [1], \"o\": {}}}");
    assert_eq!(json.get_str_property("a.s"), Some("text"));
    assert_eq!(json.get_string_property("a.s"), Some("text".to_string()));
    assert_eq!(json.get_str_property("a.i"), None);
    assert_eq!(json.get_string_property("a.x"), None);
    assert_eq!(json.get_int_property("a.i"), Some(4));
    assert_eq!(json.get_int_property("a.f"), Some(4));
    assert_eq!(json.get_int_property("a.s"), None);
    assert_eq!(json.get_int_property("a.x"), None);
    assert_eq!(json.get_array_property("a.l"), Some(&vec![Json::Int(1)]));
    assert_eq!(json.get_array_property("a.o"), None);
    assert_eq!(json.get_object_property("a.o"), Some(&vec![]));
    assert_eq!(json.get_object_property("a.l"), None);
}

#[test]
fn copies_whole_trees() {
    let json = doc("{\"a\": [1, 2.5, \"x\", null, true, {\"b\": []}]}");
    let copy = json.duplicate();
    assert_eq!(copy, json);
}

#[test]
fn a_document_holds_itself() {
    let json = doc("{\"a\": {\"b\": 1}}");
    assert_eq!(json.raw(), &json);
    assert_eq!(Property::get_int_property(&json, "a.b"), Some(1));
    assert_eq!(Property::get_property(&json, "a.c"), None);
}
