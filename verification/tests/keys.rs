//! Published keys, their cache, and the string operations.

use bjorst_clerk_axum::jwks::{read_jwks, KeySet};
use bjorst_clerk_axum::text::{chars, find_last, parse_i64, same, strip_prefix, trim_start_matches};
use bjorst_clerk_axum::{ClerkError, ClerkJwksCache, FetchError};
use serde_json::Value;
use std::time::{Duration, Instant};

const BODY: &[u8] =
    br#"{"keys":[{"kid":"a","n":1},{"kid":"b","n":2},{"kid":"a","n":3}],"more":true}"#;

fn document(text: &str) -> Value {
    serde_json::from_str(text).unwrap()
}

fn request_error() -> reqwest::Error {
    reqwest::Client::new().get("not a url").build().unwrap_err()
}

fn filled_at(ttl: Duration, at: Instant) -> ClerkJwksCache {
    let mut cache = ClerkJwksCache::new(ttl);
    assert!(cache.refresh_at(Ok(BODY.to_vec()), at).is_ok());
    cache
}

#[test]
fn keys_are_indexed_by_their_ids() {
    let keys = read_jwks(BODY).unwrap();
    assert!(keys.contains("a"));
    assert!(keys.contains("b"));
    assert!(!keys.contains("c"));
    assert!(!keys.contains(""));
}

#[test]
fn last_key_of_an_id_wins() {
    let keys = read_jwks(BODY).unwrap();
    assert_eq!(*keys.select(Some("a")).unwrap(), document(r#"{"kid":"a","n":3}"#));
    assert_eq!(*keys.select(Some("b")).unwrap(), document(r#"{"kid":"b","n":2}"#));
}

#[test]
fn unknown_id_selects_the_first_key() {
    let keys = read_jwks(BODY).unwrap();
    assert_eq!(*keys.select(Some("c")).unwrap(), document(r#"{"kid":"a","n":3}"#));
    assert_eq!(*keys.select(None).unwrap(), document(r#"{"kid":"a","n":3}"#));
    let keys = read_jwks(br#"{"keys":[{"kid":"x"},{"kid":""}]}"#).unwrap();
    assert_eq!(*keys.select(None).unwrap(), document(r#"{"kid":""}"#));
}

#[test]
fn empty_key_array_selects_nothing() {
    let keys = read_jwks(br#"{"keys":[]}"#).unwrap();
    assert!(matches!(
        keys.select(Some("a")),
        Err(ClerkError::KeyNotFound(Some(kid))) if kid == "a"
    ));
    assert!(matches!(keys.select(None), Err(ClerkError::KeyNotFound(None))));
}

#[test]
fn document_has_to_have_a_key_array() {
    for text in ["{}", "[]", "null", "7", r#""keys""#, r#"{"keys":{}}"#, r#"{"keys":null}"#] {
        let r = KeySet::from_document(&document(text));
        assert_eq!(r.unwrap_err().message(), "JWKS parse failed: missing 'keys' array");
    }
}

#[test]
fn every_key_has_to_have_an_id() {
    for text in [
        r#"{"keys":[{}]}"#,
        r#"{"keys":[{"kid":"a"},{"kid":7}]}"#,
        r#"{"keys":[{"kid":null},{"kid":"a"}]}"#,
        r#"{"keys":["kid"]}"#,
    ] {
        let r = read_jwks(text.as_bytes());
        assert_eq!(r.unwrap_err().message(), "JWKS parse failed: key missing 'kid'");
    }
}

#[test]
fn body_has_to_be_json() {
    for body in [&b""[..], b"{", b"<html>", b"{} {}", &[0xff]] {
        let r = read_jwks(body);
        assert!(matches!(r, Err(ClerkError::JwksFetch(FetchError::Body(_)))));
        assert_eq!(
            r.unwrap_err().message(),
            "JWKS fetch failed: error decoding response body"
        );
    }
}

#[test]
fn new_cache_serves_nothing() {
    let cache = ClerkJwksCache::new(Duration::from_secs(60));
    assert!(cache.lookup(None).is_none());
    assert!(cache.lookup(Some("a")).is_none());
    assert!(cache.lookup_at(None, Instant::now()).is_none());
}

#[test]
fn refreshed_keys_are_served_until_the_ttl() {
    let t0 = Instant::now();
    let cache = filled_at(Duration::from_secs(60), t0);
    assert!(cache.lookup_at(Some("a"), t0).is_some());
    assert!(cache.lookup_at(None, t0 + Duration::from_nanos(59_999_999_999)).is_some());
    assert!(cache.lookup_at(Some("a"), t0 + Duration::from_secs(60)).is_none());
    assert!(cache.lookup_at(None, t0 + Duration::from_secs(61)).is_none());
    let served = cache.lookup(Some("b")).unwrap();
    assert_eq!(*served.select(Some("b")).unwrap(), document(r#"{"kid":"b","n":2}"#));
}

#[test]
fn reading_before_the_fetch_counts_as_no_age() {
    let t0 = Instant::now();
    let t1 = t0 + Duration::from_secs(3600);
    let cache = filled_at(Duration::from_secs(60), t1);
    assert!(cache.lookup_at(Some("a"), t0).is_some());
    assert!(filled_at(Duration::ZERO, t1).lookup_at(Some("a"), t0).is_none());
}

#[test]
fn age_is_counted_from_the_last_fetch() {
    let t0 = Instant::now();
    let t1 = t0 + Duration::from_secs(50);
    let mut cache = filled_at(Duration::from_secs(60), t0);
    assert!(cache.refresh_at(Ok(BODY.to_vec()), t1).is_ok());
    assert!(cache.lookup_at(Some("a"), t0 + Duration::from_secs(60)).is_some());
    assert!(cache.lookup_at(Some("a"), t0 + Duration::from_secs(109)).is_some());
    assert!(cache.lookup_at(Some("a"), t0 + Duration::from_secs(110)).is_none());
}

#[test]
fn second_lookup_is_served_from_the_cache() {
    let mut cache = ClerkJwksCache::new(Duration::from_secs(3600));
    assert!(cache.lookup(Some("b")).is_none());
    let fetched = cache.refresh(Ok(BODY.to_vec())).unwrap();
    let served = cache.lookup(Some("b")).unwrap();
    for kid in ["a", "b"] {
        let key = served.select(Some(kid)).unwrap();
        assert_eq!(key, fetched.select(Some(kid)).unwrap());
        assert_eq!(key["kid"], kid);
    }
    assert!(cache.lookup(Some("b")).is_some());
}

#[test]
fn unknown_id_asks_for_a_refresh() {
    let t0 = Instant::now();
    let cache = filled_at(Duration::from_secs(60), t0);
    assert!(cache.lookup_at(Some("c"), t0).is_none());
    assert!(cache.lookup(Some("c")).is_none());
}

#[test]
fn zero_ttl_never_serves() {
    let t0 = Instant::now();
    let cache = filled_at(Duration::ZERO, t0);
    assert!(cache.lookup_at(None, t0).is_none());
    assert!(cache.lookup(Some("a")).is_none());
}

#[test]
fn default_ttl_is_an_hour() {
    let t0 = Instant::now();
    let mut cache = ClerkJwksCache::default();
    assert!(cache.lookup(None).is_none());
    assert!(cache.refresh_at(Ok(BODY.to_vec()), t0).is_ok());
    assert!(cache.lookup_at(Some("a"), t0 + Duration::from_millis(3_599_999)).is_some());
    assert!(cache.lookup_at(Some("a"), t0 + Duration::from_secs(3600)).is_none());
}

#[test]
fn refresh_replaces_the_keys() {
    let t0 = Instant::now();
    let mut cache = filled_at(Duration::from_secs(60), t0);
    let keys = cache.refresh_at(Ok(br#"{"keys":[{"kid":"c"}]}"#.to_vec()), t0).unwrap();
    assert!(keys.contains("c"));
    assert!(cache.lookup_at(Some("a"), t0).is_none());
    assert!(cache.lookup_at(Some("c"), t0).is_some());
}

#[test]
fn failed_refresh_keeps_the_keys_and_their_age() {
    let t0 = Instant::now();
    let t1 = t0 + Duration::from_secs(30);
    let mut cache = filled_at(Duration::from_secs(60), t0);
    assert!(matches!(
        cache.refresh_at(Err(request_error()), t1),
        Err(ClerkError::JwksFetch(FetchError::Request(_)))
    ));
    assert!(matches!(
        cache.refresh_at(Ok(b"{".to_vec()), t1),
        Err(ClerkError::JwksFetch(FetchError::Body(_)))
    ));
    assert!(matches!(
        cache.refresh_at(Ok(b"{}".to_vec()), t1),
        Err(ClerkError::JwksParse(_))
    ));
    assert!(cache.lookup_at(Some("a"), t0 + Duration::from_secs(59)).is_some());
    assert!(cache.lookup_at(Some("a"), t0 + Duration::from_secs(60)).is_none());
}

#[test]
fn clerk_errors_have_texts() {
    let text = request_error().to_string();
    assert_eq!(
        ClerkError::from(request_error()).message(),
        format!("JWKS fetch failed: {text}")
    );
    assert_eq!(
        ClerkError::JwksParse("why".to_owned()).message(),
        "JWKS parse failed: why"
    );
    assert_eq!(
        ClerkError::KeyNotFound(None).message(),
        "no matching key found for kid=None"
    );
    assert_eq!(
        ClerkError::KeyNotFound(Some("a\"\n".to_owned())).message(),
        r#"no matching key found for kid=Some("a\"\n")"#
    );
    let cause = jsonwebtoken::errors::Error::from(jsonwebtoken::errors::ErrorKind::InvalidToken);
    assert_eq!(
        ClerkError::from(cause).message(),
        "JWT verification failed: InvalidToken"
    );
}

#[test]
fn numbers_are_read_whole() {
    assert_eq!(parse_i64("0"), Some(0));
    assert_eq!(parse_i64("-0"), Some(0));
    assert_eq!(parse_i64("+7"), Some(7));
    assert_eq!(parse_i64("-42"), Some(-42));
    assert_eq!(parse_i64("000000000000000000000000000000000000000012"), Some(12));
    assert_eq!(parse_i64("9223372036854775807"), Some(i64::MAX));
    assert_eq!(parse_i64("-9223372036854775808"), Some(i64::MIN));
    for text in [
        "", "-", "+", "--1", "+-1", "1 ", " 1", "1-", "0x1", "\u{661}",
        "9223372036854775808", "-9223372036854775809", "99999999999999999999999x",
    ] {
        assert_eq!(parse_i64(text), None);
        assert!(text.parse::<i64>().is_err());
    }
}

#[test]
fn prefixes_come_off() {
    assert_eq!(strip_prefix("Bearer x", "Bearer "), Some("x"));
    assert_eq!(strip_prefix("Bearer", "Bearer "), None);
    assert_eq!(strip_prefix("\u{e9}t\u{e9}", "\u{e9}"), Some("t\u{e9}"));
    assert_eq!(strip_prefix("", ""), Some(""));
    assert_eq!(trim_start_matches("aab", "a"), "b");
    assert_eq!(trim_start_matches("ababa", "ab"), "a");
    assert_eq!(trim_start_matches("b", "a"), "b");
    assert_eq!(trim_start_matches("aa", "a"), "");
}

#[test]
fn strings_are_their_characters() {
    assert_eq!(chars("a\u{e9}\u{1f600}"), vec!['a', '\u{e9}', '\u{1f600}']);
    assert!(same("a\u{e9}", "a\u{e9}"));
    assert!(!same("a", "a "));
    let dotted = chars("a.\u{e9}.b");
    assert_eq!(find_last(&dotted, 5, '.'), Some(3));
    assert_eq!(find_last(&dotted, 3, '.'), Some(1));
    assert_eq!(find_last(&dotted, 1, '.'), None);
    assert_eq!(find_last(&dotted, 0, '.'), None);
}
