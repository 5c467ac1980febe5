use pretty_json_log::extract::FieldSpec;
use pretty_json_log::json::{parse_json, Json, Member, Number};
use pretty_json_log::level::{
    canonical_label, colorize_log_level, get_level, level_label, level_span,
    normalize_int_log_level, severity, unknown_level_label, BADGE_WIDTH,
};
use pretty_json_log::style::{style_for, Color, Role, Severity, Span, Style};

fn badge(text: &str, severity: Severity) -> Span {
    Span { text: String::from(text), style: style_for(Role::Badge(severity)) }
}

fn record(text: &str) -> Vec<Member> {
    match parse_json(text) {
        Some(Json::Object { members, .. }) => members,
        other => panic!("not an object: {:?}", other),
    }
}

fn string(text: &str) -> Json {
    Json::String(String::from(text))
}

#[test]
fn numeric_levels_have_names() {
    assert_eq!(normalize_int_log_level(10), "trace");
    assert_eq!(normalize_int_log_level(20), "debug");
    assert_eq!(normalize_int_log_level(30), "info");
    assert_eq!(normalize_int_log_level(40), "warn");
    assert_eq!(normalize_int_log_level(50), "error");
    assert_eq!(normalize_int_log_level(60), "fatal");
}

#[test]
fn other_numbers_are_unknown() {
    assert_eq!(normalize_int_log_level(99), "UNKNOWN (99)");
    assert_eq!(normalize_int_log_level(0), "UNKNOWN (0)");
    assert_eq!(normalize_int_log_level(31), "UNKNOWN (31)");
    assert_eq!(normalize_int_log_level(u64::MAX), "UNKNOWN (18446744073709551615)");
}

#[test]
fn label_of_each_kind_of_value() {
    assert_eq!(level_label(&Json::Number(Number::PosInt(30))), "info");
    assert_eq!(level_label(&Json::Number(Number::PosInt(0))), "UNKNOWN (0)");
    assert_eq!(level_label(&Json::Number(Number::NegInt(-30))), "UNKNOWN (-30)");
    assert_eq!(level_label(&Json::Number(Number::NegInt(-5))), "UNKNOWN (-5)");
    assert_eq!(
        level_label(&Json::Number(Number::Float(String::from("30.5")))),
        "UNKNOWN (30.5)"
    );
    assert_eq!(level_label(&parse_json("30.0").unwrap()), "UNKNOWN (30.0)");
    assert_eq!(level_label(&string("Warning")), "Warning");
    assert_eq!(level_label(&Json::Null), "invalid (null)");
    assert_eq!(level_label(&Json::Bool(true)), "invalid (true)");
    assert_eq!(level_label(&parse_json("[1, 2]").unwrap()), "invalid ([1,2])");
    assert_eq!(level_label(&parse_json("{\"a\": 1}").unwrap()), "invalid ({\"a\":1})");
}

#[test]
fn canonical_label_is_upper_case() {
    assert_eq!(canonical_label("info"), "INFO");
    assert_eq!(canonical_label("iNfO"), "INFO");
    assert_eq!(canonical_label("UNKNOWN (99)"), "UNKNOWN (99)");
    assert_eq!(canonical_label("invalid (null)"), "INVALID (NULL)");
    assert_eq!(canonical_label(""), "");
    assert_eq!(canonical_label("straße"), "STRASSE");
    assert_eq!(canonical_label("ошибка"), "ОШИБКА");
}

#[test]
fn severity_of_each_known_label() {
    assert_eq!(severity("PANIC"), Severity::Panic);
    assert_eq!(severity("FATAL"), Severity::Fatal);
    assert_eq!(severity("ERROR"), Severity::Error);
    assert_eq!(severity("WARN"), Severity::Warn);
    assert_eq!(severity("INFO"), Severity::Info);
    assert_eq!(severity("DEBUG"), Severity::Debug);
    assert_eq!(severity("TRACE"), Severity::Trace);
    assert_eq!(severity("info"), Severity::Other);
    assert_eq!(severity("WARNING"), Severity::Other);
    assert_eq!(severity("INFO "), Severity::Other);
    assert_eq!(severity(""), Severity::Other);
}

#[test]
fn badge_styles_follow_the_table() {
    let style = |fg, bg| Style { fg: Some(fg), bg: Some(bg), bold: true };
    assert_eq!(style_for(Role::Badge(Severity::Panic)), style(Color::Red, Color::BrightWhite));
    assert_eq!(style_for(Role::Badge(Severity::Fatal)), style(Color::BrightWhite, Color::Red));
    assert_eq!(
        style_for(Role::Badge(Severity::Error)),
        style(Color::BrightWhite, Color::BrightRed)
    );
    assert_eq!(
        style_for(Role::Badge(Severity::Warn)),
        style(Color::BrightBlack, Color::BrightYellow)
    );
    assert_eq!(
        style_for(Role::Badge(Severity::Info)),
        style(Color::BrightWhite, Color::BrightBlue)
    );
    assert_eq!(
        style_for(Role::Badge(Severity::Debug)),
        style(Color::BrightWhite, Color::BrightBlack)
    );
    assert_eq!(style_for(Role::Badge(Severity::Trace)), style(Color::BrightWhite, Color::Black));
    assert_eq!(
        style_for(Role::Badge(Severity::Other)),
        style(Color::BrightWhite, Color::BrightBlack)
    );
    assert_eq!(style_for(Role::NoBadge), style(Color::BrightBlack, Color::BrightYellow));
}

#[test]
fn badges_are_padded_at_the_end_to_the_badge_width() {
    assert_eq!(BADGE_WIDTH, 5);
    assert_eq!(colorize_log_level(String::from("INFO")), badge("INFO ", Severity::Info));
    assert_eq!(colorize_log_level(String::from("WARN")), badge("WARN ", Severity::Warn));
    assert_eq!(colorize_log_level(String::from("ERROR")), badge("ERROR", Severity::Error));
    assert_eq!(colorize_log_level(String::from("OK")), badge("OK   ", Severity::Other));
    assert_eq!(
        colorize_log_level(String::from("WARNING")),
        badge("WARNING", Severity::Other)
    );
}

#[test]
fn level_span_of_numbers_and_strings() {
    assert_eq!(
        level_span(Some(&Json::Number(Number::PosInt(10)))),
        badge("TRACE", Severity::Trace)
    );
    assert_eq!(
        level_span(Some(&Json::Number(Number::PosInt(20)))),
        badge("DEBUG", Severity::Debug)
    );
    assert_eq!(
        level_span(Some(&Json::Number(Number::PosInt(40)))),
        badge("WARN ", Severity::Warn)
    );
    assert_eq!(
        level_span(Some(&Json::Number(Number::PosInt(50)))),
        badge("ERROR", Severity::Error)
    );
    assert_eq!(
        level_span(Some(&Json::Number(Number::PosInt(60)))),
        badge("FATAL", Severity::Fatal)
    );
    assert_eq!(level_span(Some(&string("panic"))), badge("PANIC", Severity::Panic));
    assert_eq!(level_span(Some(&string("notice"))), badge("NOTICE", Severity::Other));
}

#[test]
fn number_thirty_and_info_in_any_case_are_shown_alike() {
    let by_number = level_span(Some(&Json::Number(Number::PosInt(30))));
    assert_eq!(by_number, badge("INFO ", Severity::Info));
    for name in ["info", "INFO", "Info", "iNfO"] {
        assert_eq!(level_span(Some(&string(name))), by_number);
    }
}

#[test]
fn unknown_number_has_the_default_style() {
    assert_eq!(
        level_span(Some(&Json::Number(Number::PosInt(99)))),
        badge("UNKNOWN (99)", Severity::Other)
    );
}

#[test]
fn number_that_is_no_level_is_shown_with_its_own_value() {
    let spec = FieldSpec::parse("level,lvl");
    assert_eq!(
        get_level(&record("{\"level\":-5}"), &spec),
        (badge("UNKNOWN (-5)", Severity::Other), Some(String::from("level")))
    );
    assert_eq!(
        get_level(&record("{\"level\":30.5}"), &spec),
        (badge("UNKNOWN (30.5)", Severity::Other), Some(String::from("level")))
    );
    assert_eq!(
        get_level(&record("{\"lvl\":-9223372036854775808}"), &spec),
        (badge("UNKNOWN (-9223372036854775808)", Severity::Other), Some(String::from("lvl")))
    );
    assert_eq!(
        get_level(&record("{\"level\":1e3}"), &spec),
        (badge("UNKNOWN (1000.0)", Severity::Other), Some(String::from("level")))
    );
}

#[test]
fn unknown_level_label_wraps_the_number() {
    assert_eq!(unknown_level_label("7"), "UNKNOWN (7)");
    assert_eq!(unknown_level_label("-0.5"), "UNKNOWN (-0.5)");
    assert_eq!(unknown_level_label(""), "UNKNOWN ()");
}

#[test]
fn value_of_another_kind_is_invalid() {
    assert_eq!(level_span(Some(&Json::Null)), badge("INVALID (NULL)", Severity::Other));
    assert_eq!(
        level_span(Some(&Json::Bool(false))),
        badge("INVALID (FALSE)", Severity::Other)
    );
    assert_eq!(
        level_span(Some(&parse_json("{\"a\":\"b\"}").unwrap())),
        badge("INVALID ({\"A\":\"B\"})", Severity::Other)
    );
}

#[test]
fn missing_level_has_the_empty_badge() {
    assert_eq!(
        level_span(None),
        Span { text: String::from("EMPTY"), style: style_for(Role::NoBadge) }
    );
}

#[test]
fn get_level_reports_the_matched_key() {
    let members = record("{\"lvl\":\"warn\",\"level\":50}");
    let spec = FieldSpec::parse("level,lvl");
    assert_eq!(
        get_level(&members, &spec),
        (badge("ERROR", Severity::Error), Some(String::from("level")))
    );
    let spec = FieldSpec::parse("severity,lvl");
    assert_eq!(
        get_level(&members, &spec),
        (badge("WARN ", Severity::Warn), Some(String::from("lvl")))
    );
}

#[test]
fn get_level_without_a_level() {
    let members = record("{\"msg\":\"x\"}");
    let spec = FieldSpec::parse("level,lvl");
    assert_eq!(
        get_level(&members, &spec),
        (Span { text: String::from("EMPTY"), style: style_for(Role::NoBadge) }, None)
    );
}
