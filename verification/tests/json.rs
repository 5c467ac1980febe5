use pretty_json_log::json::{parse_json, Json, Member, Number};

fn member(key: &str, value: Json) -> Member {
    Member { key: String::from(key), value }
}

#[test]
fn parse_json_reads_scalars() {
    assert_eq!(parse_json("null"), Some(Json::Null));
    assert_eq!(parse_json("true"), Some(Json::Bool(true)));
    assert_eq!(parse_json("false"), Some(Json::Bool(false)));
    assert_eq!(parse_json("\"a\\nb\""), Some(Json::String(String::from("a\nb"))));
    assert_eq!(parse_json(" 30 "), Some(Json::Number(Number::PosInt(30))));
}

#[test]
fn parse_json_tells_the_kinds_of_number_apart() {
    assert_eq!(parse_json("0"), Some(Json::Number(Number::PosInt(0))));
    assert_eq!(
        parse_json("18446744073709551615"),
        Some(Json::Number(Number::PosInt(u64::MAX)))
    );
    assert_eq!(parse_json("-7"), Some(Json::Number(Number::NegInt(-7))));
    assert_eq!(
        parse_json("-9223372036854775808"),
        Some(Json::Number(Number::NegInt(i64::MIN)))
    );
    assert_eq!(
        parse_json("1.5"),
        Some(Json::Number(Number::Float(String::from("1.5"))))
    );
    assert_eq!(
        parse_json("1e3"),
        Some(Json::Number(Number::Float(String::from("1000.0"))))
    );
}

#[test]
fn parse_json_rejects_what_is_no_json() {
    assert_eq!(parse_json("not json"), None);
    assert_eq!(parse_json(""), None);
    assert_eq!(parse_json("{\"a\":"), None);
    assert_eq!(parse_json("{} trailing"), None);
}

#[test]
fn parse_json_keeps_the_text_of_arrays() {
    assert_eq!(
        parse_json("[1, \"two\", null]"),
        Some(Json::Array {
            items: vec![
                Json::Number(Number::PosInt(1)),
                Json::String(String::from("two")),
                Json::Null,
            ],
            text: String::from("[1,\"two\",null]"),
        })
    );
}

#[test]
fn parse_json_keeps_the_order_of_keys() {
    assert_eq!(
        parse_json("{\"zeta\": 1, \"alpha\": {\"b\": [], \"a\": true}}"),
        Some(Json::Object {
            members: vec![
                member("zeta", Json::Number(Number::PosInt(1))),
                member(
                    "alpha",
                    Json::Object {
                        members: vec![
                            member(
                                "b",
                                Json::Array {
                                    items: vec![],
                                    text: String::from("[]"),
                                }
                            ),
                            member("a", Json::Bool(true)),
                        ],
                        text: String::from("{\"b\":[],\"a\":true}"),
                    }
                ),
            ],
            text: String::from("{\"zeta\":1,\"alpha\":{\"b\":[],\"a\":true}}"),
        })
    );
}

#[test]
fn parse_json_keeps_the_last_value_of_a_repeated_key() {
    assert_eq!(
        parse_json("{\"a\":1,\"b\":2,\"a\":3}"),
        Some(Json::Object {
            members: vec![
                member("a", Json::Number(Number::PosInt(3))),
                member("b", Json::Number(Number::PosInt(2))),
            ],
            text: String::from("{\"a\":3,\"b\":2}"),
        })
    );
}

#[test]
fn parse_json_agrees_with_the_parser_it_wraps() {
    let text = "{\"k\":[{\"x\":-1.25e-3},\"s\",false]}";
    let outside: serde_json::Value = serde_json::from_str(text).unwrap();
    match parse_json(text) {
        Some(Json::Object { members, text }) => {
            assert_eq!(text, outside.to_string());
            assert_eq!(members.len(), 1);
            assert_eq!(members[0].value.to_text(), outside["k"].to_string());
        }
        other => panic!("not an object: {:?}", other),
    }
}

#[test]
fn number_accessors_follow_the_form() {
    assert_eq!(Number::PosInt(5).as_i64(), Some(5));
    assert_eq!(Number::PosInt(5).as_u64(), Some(5));
    assert_eq!(Number::PosInt(u64::MAX).as_i64(), None);
    assert_eq!(Number::PosInt(i64::MAX as u64).as_i64(), Some(i64::MAX));
    assert_eq!(Number::NegInt(-5).as_i64(), Some(-5));
    assert_eq!(Number::NegInt(-5).as_u64(), None);
    assert_eq!(Number::Float(String::from("1.5")).as_i64(), None);
    assert_eq!(Number::Float(String::from("1.5")).as_u64(), None);
}

#[test]
fn number_text_is_what_the_parser_writes() {
    for text in ["0", "30", "-7", "18446744073709551615", "-9223372036854775808", "1.5", "1e300"] {
        let outside: serde_json::Value = serde_json::from_str(text).unwrap();
        match parse_json(text) {
            Some(Json::Number(n)) => assert_eq!(n.to_text(), outside.to_string()),
            other => panic!("not a number: {:?}", other),
        }
    }
}

#[test]
fn textual_form_of_each_kind() {
    assert_eq!(Json::Null.to_text(), "null");
    assert_eq!(Json::Bool(true).to_text(), "true");
    assert_eq!(Json::Bool(false).to_text(), "false");
    assert_eq!(Json::Number(Number::NegInt(-3)).to_text(), "-3");
    assert_eq!(Json::String(String::from("a \"b\"")).to_text(), "a \"b\"");
    assert_eq!(parse_json("[1, 2]").unwrap().to_text(), "[1,2]");
    assert_eq!(parse_json("{ \"a\" : \"x\" }").unwrap().to_text(), "{\"a\":\"x\"}");
}
