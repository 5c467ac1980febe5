use pretty_json_log::json::{parse_json, Json};
use pretty_json_log::line::{format_line, render_line, Config, FieldSpecs};
use pretty_json_log::pipeline::run;
use pretty_json_log::style::plain;

fn specs() -> FieldSpecs {
    FieldSpecs::new(&Config::default())
}

fn nested(depth: usize) -> String {
    let mut text = String::from("{\"msg\":\"deep\",\"a\":");
    for _ in 0..depth {
        text.push('[');
    }
    text.push('1');
    for _ in 0..depth {
        text.push(']');
    }
    text.push('}');
    text
}

#[test]
fn deeply_nested_record_is_written_out() {
    let line = nested(100);
    let expected = format!("EMPTY TIME EMPTY deep a={}1{}", "[".repeat(100), "]".repeat(100));
    assert_eq!(plain(&format_line(&line, &specs())), expected);
}

#[test]
fn record_nested_beyond_the_parser_limit_is_passed_through() {
    let line = nested(200);
    assert_eq!(parse_json(&line), None);
    assert_eq!(render_line(&line, &specs()), line);
}

#[test]
fn large_and_small_numbers() {
    let line = "{\"a\":18446744073709551616,\"b\":-9223372036854775809,\"c\":1e-7,\"d\":-0,\"e\":0.1}";
    let outside: serde_json::Value = serde_json::from_str(line).unwrap();
    let expected = format!(
        "EMPTY TIME EMPTY null a={} b={} c={} d={} e={}",
        outside["a"], outside["b"], outside["c"], outside["d"], outside["e"]
    );
    assert_eq!(plain(&format_line(line, &specs())), expected);
}

#[test]
fn keys_and_strings_of_any_script() {
    let line = "{\"msg\":\"héllo wörld\",\"ключ\":\"значение\",\"鍵\":[\"値\"],\"e\\u0301\":\"\\ud83d\\ude00\"}";
    assert_eq!(
        plain(&format_line(line, &specs())),
        "EMPTY TIME EMPTY héllo wörld ключ=\"значение\" 鍵=[\"値\"] e\u{301}=\"😀\""
    );
}

#[test]
fn values_with_escape_sequences_of_the_terminal() {
    let line = "{\"msg\":\"a\\u001b[0mb\",\"k\":\"\\u001b[31mred\"}";
    assert_eq!(
        plain(&format_line(line, &specs())),
        "EMPTY TIME EMPTY a\u{1b}[0mb k=\"\u{1b}[31mred\""
    );
}

#[test]
fn time_level_and_message_of_every_kind_of_value() {
    let kinds = ["null", "true", "0", "-1", "0.5", "\"\"", "\"x\"", "[]", "[1]", "{}", "{\"a\":1}"];
    let specs = specs();
    for time in kinds {
        for level in kinds {
            for message in kinds {
                let line = format!(
                    "{{\"time\":{},\"level\":{},\"message\":{},\"rest\":{}}}",
                    time, level, message, message
                );
                let spans = format_line(&line, &specs);
                assert!(spans.len() >= 9);
                assert_eq!(spans[6].text, "rest");
                assert!(matches!(parse_json(&line), Some(Json::Object { .. })));
            }
        }
    }
}

#[test]
fn many_lines_keep_their_order() {
    let input: Vec<String> =
        (0..500).map(|i| format!("{{\"msg\":\"m\",\"n\":{}}}", 1_000_000 + i)).collect();
    let written = run(&input, &specs());
    assert_eq!(written.len(), 500);
    for (i, line) in written.iter().enumerate() {
        assert!(line.contains(&format!("{}", 1_000_000 + i)), "line {} is {:?}", i, line);
    }
}
