use facebook_ads::json::{parse_json_text, Json};
use facebook_ads::text::{eq_str, num_text_i32, num_text_i64, num_text_u32, num_text_u64, num_text_u8, u16_to_dec};

fn parse(s: &str) -> Option<Json> {
    parse_json_text(s)
}

#[test]
fn parses_scalars() {
    assert!(matches!(parse("null"), Some(Json::Null)));
    assert!(matches!(parse("true"), Some(Json::Bool(true))));
    assert!(matches!(parse("false"), Some(Json::Bool(false))));
    match parse("42") {
        Some(Json::Num(t)) => assert_eq!(t, "42"),
        _ => panic!("expected a number"),
    }
    match parse("  \"hi\"  ") {
        Some(Json::Str(s)) => assert_eq!(s, "hi"),
        _ => panic!("expected a string"),
    }
}

#[test]
fn keeps_number_literals_verbatim() {
    match parse("-12.5e+3") {
        Some(Json::Num(t)) => assert_eq!(t, "-12.5e+3"),
        _ => panic!("expected a number"),
    }
    match parse("0.25") {
        Some(Json::Num(t)) => assert_eq!(t, "0.25"),
        _ => panic!("expected a number"),
    }
    match parse("184467440737095516150") {
        Some(Json::Num(t)) => assert_eq!(t, "184467440737095516150"),
        _ => panic!("expected a number"),
    }
}

#[test]
fn rejects_malformed_numbers() {
    assert!(parse("01").is_none());
    assert!(parse("1.").is_none());
    assert!(parse(".5").is_none());
    assert!(parse("1e").is_none());
    assert!(parse("-").is_none());
    assert!(parse("+1").is_none());
}

#[test]
fn unescapes_strings() {
    match parse("\"a\\nb\\t\\\"c\\\\d\\/e\"") {
        Some(Json::Str(s)) => assert_eq!(s, "a\nb\t\"c\\d/e"),
        _ => panic!("expected a string"),
    }
    match parse("\"\\u0041\\u00e9\"") {
        Some(Json::Str(s)) => assert_eq!(s, "A\u{e9}"),
        _ => panic!("expected a string"),
    }
    match parse("\"\\uD83D\\uDE00\"") {
        Some(Json::Str(s)) => assert_eq!(s, "\u{1F600}"),
        _ => panic!("expected a string"),
    }
}

#[test]
fn rejects_bad_strings() {
    assert!(parse("\"unterminated").is_none());
    assert!(parse("\"lone \\uD800 surrogate\"").is_none());
    assert!(parse("\"bad \\q escape\"").is_none());
    assert!(parse("\"ctrl \u{0001}\"").is_none());
}

#[test]
fn parses_arrays_and_objects() {
    match parse("[1, [true, null], \"x\"]") {
        Some(Json::Arr(items)) => {
            assert_eq!(items.len(), 3);
            assert!(matches!(&items[1], Json::Arr(inner) if inner.len() == 2));
        },
        _ => panic!("expected an array"),
    }
    match parse("{\"a\": 1, \"b\": {\"c\": []}}") {
        Some(Json::Obj(ms)) => {
            assert_eq!(ms.len(), 2);
            assert_eq!(ms[0].0, "a");
            assert_eq!(ms[1].0, "b");
        },
        _ => panic!("expected an object"),
    }
    assert!(matches!(parse(" [ ] "), Some(Json::Arr(v)) if v.is_empty()));
    assert!(matches!(parse("{ }"), Some(Json::Obj(v)) if v.is_empty()));
}

#[test]
fn rejects_malformed_documents() {
    assert!(parse("").is_none());
    assert!(parse("   ").is_none());
    assert!(parse("[1,]").is_none());
    assert!(parse("{\"a\":}").is_none());
    assert!(parse("{\"a\" 1}").is_none());
    assert!(parse("{a: 1}").is_none());
    assert!(parse("[1 2]").is_none());
    assert!(parse("[1] trailing").is_none());
    assert!(parse("nul").is_none());
    assert!(parse("{\"a\": 1").is_none());
}

#[test]
fn number_texts_read_as_integers() {
    assert_eq!(num_text_u64("18446744073709551615"), Some(u64::MAX));
    assert_eq!(num_text_u64("18446744073709551616"), None);
    assert_eq!(num_text_u64("12"), Some(12));
    assert_eq!(num_text_u64("-1"), None);
    assert_eq!(num_text_u64("1.5"), None);
    assert_eq!(num_text_u32("4294967295"), Some(u32::MAX));
    assert_eq!(num_text_u32("4294967296"), None);
    assert_eq!(num_text_u8("255"), Some(255));
    assert_eq!(num_text_u8("256"), None);
    assert_eq!(num_text_i64("-9223372036854775808"), Some(i64::MIN));
    assert_eq!(num_text_i64("-9223372036854775809"), None);
    assert_eq!(num_text_i64("9223372036854775807"), Some(i64::MAX));
    assert_eq!(num_text_i64("-0"), Some(0));
    assert_eq!(num_text_i32("-2147483648"), Some(i32::MIN));
    assert_eq!(num_text_i32("2147483648"), None);
}

#[test]
fn renders_decimals() {
    assert_eq!(u16_to_dec(0), "0");
    assert_eq!(u16_to_dec(7), "7");
    assert_eq!(u16_to_dec(407), "407");
    assert_eq!(u16_to_dec(65535), "65535");
}

#[test]
fn compares_strings_by_characters() {
    assert!(eq_str("abc", "abc"));
    assert!(!eq_str("abc", "abd"));
    assert!(!eq_str("abc", "ab"));
    assert!(eq_str("", ""));
}
