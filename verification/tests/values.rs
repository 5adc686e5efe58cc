use loom_server::json::{from_value, parse, to_bytes, to_value, Fields, Json};
use loom_server::reply::{
    command_error_response, automation_violation, contract_violation, error_code, error_response,
    error_response_with_code, error_response_with_details, lifecycle_ok, needs_normalizing,
    normalize_api_error, ok, parse_query_sequence, public_thread_or_response, starts_with,
    unreadable_body, validate_automation_request, validate_contract_request, CommandError,
    ContractStep,
};
use loom_server::strmap::StrMap;
use loom_server::text::{
    chars_of, decimal_text, is_blank, joined, joined3, same_text, text_from, text_precedes, trim,
};

fn text_of<'a>(value: &'a Json, key: &str) -> &'a str {
    value.get(key).unwrap().as_str().unwrap()
}

#[test]
fn a_document_reads_back() {
    let text = r#"{"b":[1,-2,true,null,"x"],"a":1.5}"#;
    let value = parse(text.as_bytes()).unwrap();
    assert_eq!(value.get("b").unwrap().as_array().unwrap().len(), 5);
    assert_eq!(value.get("b").unwrap().as_array().unwrap()[0], Json::UInt(1));
    assert_eq!(value.get("b").unwrap().as_array().unwrap()[1], Json::Int(-2));
    assert!(matches!(value.get("a"), Some(Json::Float(_))));
    let again = parse(&to_bytes(&value)).unwrap();
    assert_eq!(to_value(&again), to_value(&value));
    assert_eq!(
        to_value(&value),
        serde_json::from_str::<serde_json::Value>(text).unwrap()
    );
    assert_eq!(from_value(to_value(&Json::text("x"))), Json::text("x"));
    assert!(parse(b"{").is_none());
}

#[test]
fn the_text_of_a_value_is_json() {
    let value = Fields::new().with("k", Json::text("a\"b")).object();
    assert_eq!(to_bytes(&value), br#"{"k":"a\"b"}"#.to_vec());
}

#[test]
fn the_last_member_of_a_name_counts() {
    let value = Fields::new()
        .with("k", Json::UInt(1))
        .with("k", Json::UInt(2))
        .object();
    assert_eq!(value.get("k").unwrap().as_uint(), Some(2));
    let set = Fields::new().with("k", Json::UInt(1)).set("k", Json::UInt(3)).object();
    assert_eq!(set.get("k").unwrap().as_uint(), Some(3));
    assert!(Fields::new().with("k", Json::Null).without("k").object().get("k").is_none());
    assert!(Json::Null.is_null());
    assert!(!Json::Null.is_object());
}

#[test]
fn texts_are_compared_trimmed_and_spelled() {
    assert!(same_text("é", "é"));
    assert!(!same_text("a", "A"));
    assert_eq!(trim(" \u{3000}a b\n"), "a b");
    assert!(is_blank(" \t\u{2003}"));
    assert!(!is_blank("\u{200B}"));
    assert!(is_blank(""));
    assert_eq!(decimal_text(0), "0");
    assert_eq!(decimal_text(u64::MAX), "18446744073709551615");
    assert_eq!(joined("a", "b"), "ab");
    assert_eq!(joined3("a", "b", "c"), "abc");
    assert_eq!(text_from(&chars_of("\u{1F600}x")), "\u{1F600}x");
    assert!(text_precedes("a", "b"));
    assert!(text_precedes("a", "aa"));
    assert!(!text_precedes("b", "a"));
    assert!(!text_precedes("a", "a"));
}

#[test]
fn a_map_is_walked_in_the_order_of_its_keys() {
    let mut map: StrMap<u64> = StrMap::new();
    assert_eq!(map.insert("b".to_owned(), 1), None);
    assert_eq!(map.insert("a".to_owned(), 2), None);
    assert_eq!(map.insert("b".to_owned(), 3), Some(1));
    assert_eq!(map.len(), 2);
    assert_eq!(map.key(0), "a");
    assert_eq!(*map.value(1), 3);
    assert_eq!(map.get("a"), Some(&2));
    assert!(map.contains("b"));
    assert_eq!(map.remove("b"), Some(3));
    assert_eq!(map.remove("b"), None);
    assert!(!map.contains("b"));
}

#[test]
fn statuses_have_their_codes() {
    for (status, code) in [
        (400, "invalid_request"),
        (401, "unauthorized"),
        (403, "forbidden"),
        (404, "not_found"),
        (409, "conflict"),
        (422, "invalid_request"),
        (500, "internal_error"),
        (502, "host_unavailable"),
        (503, "provider_unavailable"),
        (504, "command_timeout"),
        (418, "invalid_request"),
    ] {
        assert_eq!(error_code(status), code, "{status}");
    }
}

#[test]
fn errors_have_one_shape() {
    let plain = error_response(404, "gone".to_owned());
    assert_eq!(plain.status, 404);
    assert_eq!(text_of(&plain.body, "code"), "not_found");
    assert_eq!(text_of(&plain.body, "message"), "gone");
    assert!(plain.body.get("details").is_none());
    let coded = error_response_with_code(409, "busy", "later".to_owned());
    assert_eq!(text_of(&coded.body, "code"), "busy");
    let detailed =
        error_response_with_details(409, "busy", "later".to_owned(), Json::UInt(1));
    assert_eq!(detailed.body.get("details"), Some(&Json::UInt(1)));
    assert_eq!(ok(Json::Null).status, 200);
    assert_eq!(lifecycle_ok().body.get("ok"), Some(&Json::Bool(true)));
    for (error, status) in [
        (CommandError::NotFound("m".to_owned()), 404),
        (CommandError::Conflict("m".to_owned()), 409),
        (CommandError::Invalid("m".to_owned()), 400),
        (CommandError::Domain("m".to_owned()), 409),
    ] {
        let reply = command_error_response(error);
        assert_eq!(reply.status, status);
        assert_eq!(text_of(&reply.body, "message"), "m");
    }
}

#[test]
fn a_sequence_in_a_query_is_a_number() {
    assert_eq!(parse_query_sequence(&None, "afterSeq"), Ok(None));
    assert_eq!(parse_query_sequence(&Some("12".to_owned()), "afterSeq"), Ok(Some(12)));
    assert_eq!(parse_query_sequence(&Some("+7".to_owned()), "afterSeq"), Ok(Some(7)));
    assert_eq!(parse_query_sequence(&Some(String::new()), "afterSeq"), Ok(None));
    for bad in ["-1", "x", "18446744073709551616"] {
        let reply = parse_query_sequence(&Some(bad.to_owned()), "afterSeq").unwrap_err();
        assert_eq!(reply.status, 400);
        assert!(
            text_of(&reply.body, "message").contains("afterSeq"),
            "{}",
            text_of(&reply.body, "message")
        );
    }
}

#[test]
fn a_number_error_is_told_in_words() {
    let reply = parse_query_sequence(&Some("x".to_owned()), "afterSeq").unwrap_err();
    assert_eq!(
        text_of(&reply.body, "message"),
        "invalid afterSeq query value \"x\": invalid digit found in string"
    );
}

#[test]
fn plain_errors_are_given_the_uniform_body() {
    let given = normalize_api_error(404, "Not Found", b"no such thing").unwrap();
    assert_eq!(given.status, 404);
    assert_eq!(text_of(&given.body, "code"), "not_found");
    assert_eq!(text_of(&given.body, "message"), "no such thing");
    let blank = normalize_api_error(404, "Not Found", b"  ").unwrap();
    assert_eq!(
        text_of(&blank.body, "message"),
        "request failed with status Not Found"
    );
    assert!(normalize_api_error(404, "Not Found", br#"{"code":"c","message":"m"}"#).is_none());
    assert!(normalize_api_error(404, "Not Found", br#"{"code":"c"}"#).is_some());
    assert!(starts_with("/api/v1/x", "/api/"));
    assert!(!starts_with("/ap", "/api/"));
    assert!(needs_normalizing("/api/v1/threads", 404));
    assert!(!needs_normalizing("/api/v1/threads", 200));
    assert!(!needs_normalizing("/assets/a", 404));
}

#[test]
fn a_body_that_is_not_json_is_left_to_its_handler() {
    assert_eq!(validate_contract_request(b"{"), ContractStep::PassOn);
    assert!(matches!(validate_contract_request(b"{}"), ContractStep::Check(_)));
    assert!(matches!(validate_automation_request(b"{}"), ContractStep::Check(_)));
    assert_eq!(unreadable_body("why").status, 400);
    let violation = contract_violation("threads.send", "x is required");
    assert_eq!(violation.status, 422);
    assert_eq!(
        text_of(&violation.body, "message"),
        "request body does not match the `threads.send` contract: x is required"
    );
    let violation = automation_violation("x is required");
    assert_eq!(violation.status, 422);
    assert_eq!(
        text_of(&violation.body, "message"),
        "request body does not match the automations contract: x is required"
    );
    match validate_contract_request(br#"{"reasoningLevel":"ultra"}"#) {
        ContractStep::Check(value) => assert_eq!(text_of(&value, "reasoningLevel"), "medium"),
        other => panic!("expected a check, got {other:?}"),
    }
    match validate_automation_request(br#"{"reasoningLevel":"ultra"}"#) {
        ContractStep::Check(value) => assert_eq!(text_of(&value, "reasoningLevel"), "ultra"),
        other => panic!("expected a check, got {other:?}"),
    }
}

#[test]
fn an_unknown_thread_is_not_found() {
    let reply = public_thread_or_response(None, "thr_1").unwrap_err();
    assert_eq!(reply.status, 404);
    assert_eq!(text_of(&reply.body, "message"), "thread thr_1 is not known");
}
