//! End-to-end checks of the protocol core: signature, clock sync, URL
//! resolution, query encoding, request building and response
//! classification.

use ovhdata::clock::parse_timestamp;
use ovhdata::endpoint::{escape_segment, Endpoint};
use ovhdata::query::encode_query;
use ovhdata::request::{Method, OVHapiV6Client};
use ovhdata::sig::build_sig;
use ovhdata::transport::{classify, Outcome};

fn client() -> OVHapiV6Client {
    OVHapiV6Client::new(
        "https://api.example",
        "ak".to_string(),
        "s".to_string(),
        "c".to_string(),
    )
    .expect("endpoint must parse")
}

fn header<'a>(headers: &'a [(String, String)], name: &str) -> &'a str {
    // last entry wins, matching header-map insertion
    headers
        .iter()
        .rev()
        .find(|(n, _)| n == name)
        .map(|(_, v)| v.as_str())
        .expect("header must be present")
}

#[test]
fn signature_matches_pinned_vector() {
    let sig = build_sig("GET", "https://api.example/x", "", "1000", "s", "c");
    assert_eq!(sig, "$1$9d5386c95e5fa0ba4efbd1487d95ce90ae2d0cf6");
}

#[test]
fn signature_is_deterministic() {
    let a = build_sig("GET", "https://api.example/x", "", "1000", "s", "c");
    let b = build_sig("GET", "https://api.example/x", "", "1000", "s", "c");
    assert_eq!(a, b);
}

#[test]
fn signature_changes_with_any_input() {
    let base = build_sig("GET", "https://api.example/x", "", "1000", "s", "c");
    let other = build_sig("GET", "https://api.example/x", "", "1001", "s", "c");
    assert_ne!(base, other);
    assert_eq!(other, "$1$4dbccb578c1d3cfe64b3e2d0d470a7e3f35fddc2");
    assert_ne!(
        base,
        build_sig("POST", "https://api.example/x", "", "1000", "s", "c")
    );
    assert_ne!(
        base,
        build_sig("GET", "https://api.example/y", "", "1000", "s", "c")
    );
    assert_ne!(
        base,
        build_sig("GET", "https://api.example/x", "{}", "1000", "s", "c")
    );
    assert_ne!(
        base,
        build_sig("GET", "https://api.example/x", "", "1000", "t", "c")
    );
    assert_ne!(
        base,
        build_sig("GET", "https://api.example/x", "", "1000", "s", "d")
    );
}

#[test]
fn timestamp_parses_decimal_body() {
    assert_eq!(parse_timestamp("1690000000"), 1690000000);
    assert_eq!(parse_timestamp("0"), 0);
    assert_eq!(parse_timestamp("18446744073709551615"), u64::MAX);
}

#[test]
fn timestamp_falls_back_to_sentinel() {
    assert_eq!(parse_timestamp("oops"), 1);
    assert_eq!(parse_timestamp(""), 1);
    assert_eq!(parse_timestamp("-5"), 1);
    assert_eq!(parse_timestamp("12a"), 1);
    // one past u64::MAX overflows and falls back too
    assert_eq!(parse_timestamp("18446744073709551616"), 1);
}

#[test]
fn timestamp_header_comes_from_clock_body() {
    let c = client();
    let time = parse_timestamp("1690000000");
    let req = c.build_request(Method::Get, &vec!["auth".to_string()], &vec![], &vec![], None, time);
    assert_eq!(header(&req.headers, "X-Ovh-Timestamp"), "1690000000");

    let fallback = parse_timestamp("oops");
    let req = c.build_request(
        Method::Get,
        &vec!["auth".to_string()],
        &vec![],
        &vec![],
        None,
        fallback,
    );
    assert_eq!(header(&req.headers, "X-Ovh-Timestamp"), "1");
}

#[test]
fn segments_escape_independently() {
    assert_eq!(escape_segment("a/b"), "a%2Fb");
    assert_eq!(escape_segment("a b?c#d"), "a%20b%3Fc%23d");
    assert_eq!(escape_segment("100%"), "100%25");
    assert_eq!(escape_segment("plain-id_1.2"), "plain-id_1.2");
    // non-ASCII is percent-encoded byte by byte
    assert_eq!(escape_segment("é"), "%C3%A9");
    // ASCII tab and newlines are dropped before escaping
    assert_eq!(escape_segment("a\tb\nc\rd"), "abcd");
}

#[test]
fn resolve_appends_escaped_segments() {
    let ep = Endpoint::new("https://api.example").expect("must parse");
    assert_eq!(ep.base, "https://api.example/");
    let url = ep.resolve(&vec!["auth".to_string(), "time".to_string()]);
    assert_eq!(url, "https://api.example/auth/time");

    let url = ep.resolve(&vec!["with/slash".to_string()]);
    assert_eq!(url, "https://api.example/with%2Fslash");

    // dot segments never change the path level
    let url = ep.resolve(&vec![
        ".".to_string(),
        "..".to_string(),
        "x".to_string(),
    ]);
    assert_eq!(url, "https://api.example/x");
}

#[test]
fn resolve_keeps_base_path() {
    let ep = Endpoint::new("https://eu.api.example/v1").expect("must parse");
    assert_eq!(ep.base, "https://eu.api.example/v1");
    let url = ep.resolve(&vec!["cloud".to_string(), "project".to_string()]);
    assert_eq!(url, "https://eu.api.example/v1/cloud/project");
}

#[test]
fn endpoint_rejects_unusable_bases() {
    assert!(Endpoint::new("not a url").is_none());
    assert!(Endpoint::new("mailto:user@example.com").is_none());
    assert!(Endpoint::new("https://api.example/?q=1").is_none());
}

#[test]
fn query_string_is_form_urlencoded() {
    let qs = encode_query(&vec![
        ("a".to_string(), "b c".to_string()),
        ("x".to_string(), "1&2".to_string()),
    ]);
    assert_eq!(qs, "a=b+c&x=1%262");
    assert_eq!(encode_query(&vec![]), "");
}

#[test]
fn build_request_assembles_url_headers_and_signature() {
    let c = client();
    let req = c.build_request(
        Method::Post,
        &vec!["cloud".to_string(), "project".to_string()],
        &vec![("page".to_string(), "2".to_string())],
        &vec![],
        Some(&"{\"name\":\"n\"}".to_string()),
        1000,
    );
    assert_eq!(req.url, "https://api.example/cloud/project?page=2");
    assert_eq!(req.body.as_deref(), Some("{\"name\":\"n\"}"));
    assert_eq!(header(&req.headers, "X-Ovh-Application"), "ak");
    assert_eq!(header(&req.headers, "X-Ovh-Consumer"), "c");
    assert_eq!(header(&req.headers, "X-Ovh-Timestamp"), "1000");
    assert_eq!(header(&req.headers, "User-Agent"), "OVH-DATA-CLI/hyper/0.14");
    assert_eq!(
        header(&req.headers, "Accept"),
        "application/json; charset=utf-8"
    );
    assert_eq!(
        header(&req.headers, "Content-Type"),
        "application/json; charset=utf-8"
    );
    let expected_sig = build_sig(
        "POST",
        "https://api.example/cloud/project?page=2",
        "{\"name\":\"n\"}",
        "1000",
        "s",
        "c",
    );
    assert_eq!(header(&req.headers, "X-Ovh-Signature"), expected_sig);
}

#[test]
fn time_request_is_unauthenticated() {
    let c = client();
    let req = c.time_request();
    assert_eq!(req.url, "https://api.example/auth/time");
    assert!(matches!(req.method, Method::Get));
    assert!(req.body.is_none());
    assert_eq!(req.headers.len(), 1);
    assert_eq!(req.headers[0].0, "User-Agent");
}

#[test]
fn api_catalogue_builds_expected_paths() {
    let c = client();
    let req = c.di_sources("svc", 1000);
    assert_eq!(req.url, "https://api.example/cloud/project/svc/dataIntegration/sources");
    let req = c.di_job("svc", "j1", "w1", 1000);
    assert_eq!(
        req.url,
        "https://api.example/cloud/project/svc/dataIntegration/workflows/w1/jobs/j1"
    );
    let req = c.me(1000);
    assert_eq!(req.url, "https://api.example/auth/details");
    // a path-unsafe id cannot escape its segment
    let req = c.di_source("svc", "../admin", 1000);
    assert_eq!(
        req.url,
        "https://api.example/cloud/project/svc/dataIntegration/sources/..%2Fadmin"
    );
}

#[test]
fn success_statuses_classify_as_success() {
    for status in [200u16, 201, 204, 299] {
        let out = classify(status, "anything at all".to_string(), &vec![]);
        match out {
            Outcome::Success(resp) => {
                assert_eq!(resp.status, status);
                assert_eq!(resp.body, "anything at all");
            }
            _ => panic!("expected success"),
        }
    }
    // body shape does not matter, including an empty body
    assert!(matches!(
        classify(200, String::new(), &vec![]),
        Outcome::Success(_)
    ));
    assert!(matches!(
        classify(204, "{not json".to_string(), &vec![]),
        Outcome::Success(_)
    ));
}

#[test]
fn failure_message_extraction() {
    // a structured error body yields its message field
    let out = classify(404, "{\"message\":\"not found\"}".to_string(), &vec![]);
    match out {
        Outcome::ProtocolFailure(status, message) => {
            assert_eq!(status, 404);
            assert_eq!(message, "not found");
        }
        _ => panic!("expected protocol failure"),
    }
    // an unstructured body comes back verbatim
    let out = classify(500, "gateway exploded".to_string(), &vec![]);
    match out {
        Outcome::ProtocolFailure(status, message) => {
            assert_eq!(status, 500);
            assert_eq!(message, "gateway exploded");
        }
        _ => panic!("expected protocol failure"),
    }
    // a message field that is not a string falls back to the raw body
    let out = classify(500, "{\"message\":123}".to_string(), &vec![]);
    match out {
        Outcome::ProtocolFailure(_, message) => assert_eq!(message, "{\"message\":123}"),
        _ => panic!("expected protocol failure"),
    }
}

#[test]
fn tolerated_status_classifies_as_success() {
    let out = classify(
        404,
        "{\"message\":\"not found\"}".to_string(),
        &vec![404],
    );
    match out {
        Outcome::Success(resp) => assert_eq!(resp.status, 404),
        _ => panic!("expected success"),
    }
    // other statuses stay failures
    assert!(matches!(
        classify(500, "x".to_string(), &vec![404]),
        Outcome::ProtocolFailure(..)
    ));
}

#[test]
fn outcome_maps_to_result() {
    let ok = classify(200, "body".to_string(), &vec![]).into_result();
    assert!(ok.is_ok());
    let err = classify(403, "denied".to_string(), &vec![]).into_result();
    match err {
        Err(ovhdata::transport::Error::Response(status, message)) => {
            assert_eq!(status, 403);
            assert_eq!(message, "denied");
        }
        _ => panic!("expected response error"),
    }
}
