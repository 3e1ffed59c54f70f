use lestallum::error::{ApiError, Service};
use lestallum::response::{
    empty_object, find_document_member, find_member, json_response_outcome, message_from_document,
    parse_document, upstream_message, BoundedBody, JsonValue,
};
use lestallum::urls::{build_url, parse_url};

#[test]
fn build_url_appends_segments_to_a_bare_host() {
    let url = build_url(Service::Geyser, "https://example.org", &["v2", "link", "java"]).unwrap();

    assert_eq!(url.as_str(), "https://example.org/v2/link/java");
}

#[test]
fn build_url_percent_encodes_segments() {
    let url = build_url(Service::Geyser, "https://example.org", &["xbox", "a/../b c"]).unwrap();

    assert_eq!(url.as_str(), "https://example.org/xbox/a%2F..%2Fb%20c");
}

#[test]
fn build_url_refuses_what_is_not_a_base() {
    match build_url(Service::Mojang, "not a url", &["x"]) {
        Err(ApiError::Input { service: Service::Mojang, reason }) => {
            assert_eq!(reason, "`not a url` is not a usable url")
        }
        other => panic!("unexpected {other:?}"),
    }
    match build_url(Service::Mojang, "mailto:someone@example.org", &["x"]) {
        Err(ApiError::Input { reason, .. }) => {
            assert_eq!(reason, "`mailto:someone@example.org` cannot be a base url")
        }
        other => panic!("unexpected {other:?}"),
    }
    assert_eq!(parse_url(Service::McHeads, "HTTPS://MC-Heads.net").unwrap(), "https://mc-heads.net/");
    assert!(parse_url(Service::McHeads, "::").is_err());
}

#[test]
fn upstream_message_reads_both_error_shapes() {
    assert_eq!(upstream_message(br#"{"message":"nope"}"#), "nope");
    assert_eq!(upstream_message(br#"{"errorMessage":"gone"}"#), "gone");
    assert_eq!(upstream_message(b"<html>"), "no message");
}

#[test]
fn a_message_that_is_not_text_hides_the_fallback() {
    assert_eq!(upstream_message(br#"{"message":1,"errorMessage":"gone"}"#), "no message");
    assert_eq!(upstream_message(br#"{"message":"first","errorMessage":"gone"}"#), "first");
    assert_eq!(upstream_message(br#"["message"]"#), "no message");
    let fallback = Some(JsonValue::Object(vec![(
        "errorMessage".to_owned(),
        JsonValue::Text("b".to_owned()),
    )]));
    assert_eq!(message_from_document(&fallback), "b");
    let null_message = Some(JsonValue::Object(vec![
        ("errorMessage".to_owned(), JsonValue::Text("b".to_owned())),
        ("message".to_owned(), JsonValue::Null),
    ]));
    assert_eq!(message_from_document(&null_message), "no message");
    assert_eq!(message_from_document(&None), "no message");
}

#[test]
fn documents_are_read_one_for_one() {
    let doc = parse_document(br#"{"b":[1,true,null],"a":{"x":"y"},"c":2.5}"#);
    let Some(JsonValue::Object(members)) = &doc else { panic!("not an object: {doc:?}") };
    let keys: Vec<&str> = members.iter().map(|(key, _)| key.as_str()).collect();
    assert_eq!(keys, ["a", "b", "c"]);
    assert!(matches!(find_member(members, "c"), Some(JsonValue::Number(n)) if n == "2.5"));
    match find_member(members, "b") {
        Some(JsonValue::Array(items)) => {
            assert!(matches!(items[..], [JsonValue::Number(_), JsonValue::Bool(true), JsonValue::Null]))
        }
        other => panic!("unexpected {other:?}"),
    }
    assert!(find_member(members, "z").is_none());
    assert!(find_document_member(&doc, "a").is_some());
    assert!(parse_document(b"<html>").is_none());
    assert!(find_document_member(&parse_document(b"[1]"), "a").is_none());
}

#[test]
fn empty_objects_are_told_apart() {
    assert!(empty_object(&parse_document(b" { } ")));
    assert!(!empty_object(&parse_document(br#"{"a":1}"#)));
    assert!(!empty_object(&parse_document(b"[]")));
    assert!(!empty_object(&parse_document(b"nope")));
}

#[test]
fn json_responses_are_classified_by_status_and_body() {
    assert!(matches!(
        json_response_outcome(Service::Geyser, 404, b"{}", "42"),
        Err(ApiError::NotFound { service: Service::Geyser, ref subject }) if subject == "42"
    ));
    assert!(matches!(
        json_response_outcome(Service::Geyser, 200, b"", "42"),
        Err(ApiError::NotFound { .. })
    ));
    match json_response_outcome(Service::Mojang, 429, br#"{"errorMessage":"slow down"}"#, "Notch") {
        Err(ApiError::Upstream { service: Service::Mojang, status: 429, message }) => {
            assert_eq!(message, "slow down")
        }
        other => panic!("unexpected {other:?}"),
    }
    assert!(json_response_outcome(Service::Mojang, 204, b"{}", "Notch").is_ok());
    assert!(json_response_outcome(Service::Mojang, 300, b"{}", "Notch").is_err());
}

#[test]
fn bounded_bodies_refuse_to_grow_past_their_limit() {
    let mut body = BoundedBody::new(Service::McHeads, 5);
    assert!(body.push_chunk(b"abc").is_ok());
    assert!(body.push_chunk(b"de").is_ok());
    assert_eq!(body.len(), 5);
    match body.push_chunk(b"f") {
        Err(ApiError::TooLarge { service: Service::McHeads, limit: 5 }) => {}
        other => panic!("unexpected {other:?}"),
    }
    assert!(body.push_chunk(b"").is_ok());
    assert_eq!(&body.finish()[..], b"abcde");
}

#[test]
fn not_found_errors_are_recognised() {
    let missing = ApiError::NotFound { service: Service::Mojang, subject: "x".to_owned() };
    let other = ApiError::TooLarge { service: Service::Mojang, limit: 1 };
    assert!(missing.is_not_found());
    assert!(!other.is_not_found());
    assert_eq!(Service::Geyser.as_str(), "geysermc");
    assert_eq!(Service::Mojang.as_str(), "mojang");
    assert_eq!(Service::McHeads.as_str(), "mc-heads");
}
