//! Session tokens, from the request headers to the claims.

use axum::http::{header, HeaderMap, HeaderValue};
use base64::engine::general_purpose::URL_SAFE_NO_PAD;
use base64::Engine;
use bjorst_clerk_axum::jwks::{read_jwks, KeySet};
use bjorst_clerk_axum::jwt::{
    check_claims, decoding_key_from_jwk, make_key, reject_claims, session_validation, KeyFault,
};
use bjorst_clerk_axum::session::{
    open_session, session_claims, CheckedToken, PendingToken, Step,
};
use bjorst_clerk_axum::{
    extract_access_token, ClerkClaims, ClerkConfig, ClerkError, ClerkJwksCache,
};
use std::sync::Arc;
use std::time::{Duration, Instant};

const MODULUS: &str = "qpQzmaLqTskwopeiZRouMPMW3SOyz1mwxRcQK56pZOpLLa4YWcWlNkSxsCvfn8g-BrfLku__sBq8yF_hoFvK2o1niH\
    prw74sjdimZDlx20yIPR_GHAfpQKXfn1pbUHDiy1xcq0tdsKkh5GGhzYzRxRQGJlBkebGD1eVgzmcJn_BCplPpL_Jo\
    Klp8vvigHC-xY11-IgYioB9IlKbDde9zZGC2sctdHH2l445DMjt7dDzWG33cE4UaBT1U2tJwqYfftw5O0KhLp-4Z-F\
    Hx4D97LzL8cVoPtwAtWro1P42ewKaUlf_v2zxDIF_-oHvDSn6_n6lri3Zz8uVTE3bHIZqj9w";
const OTHER_MODULUS: &str = "yy0dd_zpjeHxeSitYwUP2sksn8JjtcKiDevA5JiWf3tOr95lfIg6rdlyBnlf8n-9G4uyL4hTupxmFpOXndeVmB-FdO\
    KpPXwAiVG0r3lBNgNvhGClJ2p7h37cIot1M2KqQ6xlZWCArcomE9JdHZhqTbMPGhaPNnbVLiDIgvhgPaF7LvjpMiCt\
    lS-SmgE_VVJf9TblUdqM8Ypjpr6LpUSFvxjTCmt_hollf7MQrvu2vf8Xz28aXCZHlKzP4KomEAvOp4VJIIGbxHoJKC\
    rZC10NH8MmxYq2IA05N3gvIHEyjnMnJI-3N9HIcHiDn2UUKenS2PhzVtiQP766uGDJNRuwaw";

const LATIN1_CLAIMS: &[u8] = b"{\"sub\":\"user_1\",\"sid\":\"sess_1\",\"iss\":\"https://clerk.example\",\
    \"exp\":4102444800,\"iat\":1700000000,\"name\":\"Andr\xe9\"}";

const HEADER: &str = r#"{"alg":"RS256","typ":"JWT","kid":"key-1"}"#;

fn good_token() -> String {
    token(
        HEADER,
        r#"{"sub":"user_1","sid":"sess_1","iss":"https://clerk.example","exp":4102444800,"iat":1700000000}"#,
        "AUR6spoRJpZt-AucOyX_H4xZG6GXaltWc9WGhOhr8-7x7D7JiLWil2_GxGu0iaZCBv6BK5UyI84-A9Qn-h3dwDoJ5k\
         nRxiwiQ-KQ_NUC29syYWDmdaYwayeSWtiwQbsveAePoDgzgGEo1ZDfn9erZP1vDLFGoW7So5VSrUcBHl3xuuXAl64i\
         dGvvcMc8N-Mo1oVcci55cqHzoyNBoU-gtGTACwuD-sYZMx2HAbIoHs3KtSxPHh8VH9EgDF0WF0j0dxmEWH7OAZ_N1m\
         XDWrxCt9Eu58I0XTP96Wm7ZMOpvZ11cfQC8P1SaNPQ7EfOD7XE2Dp5Xv9v7Maaz_QYy2oWFg",
    )
}

fn for_api_token() -> String {
    token(
        HEADER,
        r#"{"sub":"user_1","sid":"sess_1","iss":"https://clerk.example","exp":4102444800,"iat":1700000000,"aud":"api"}"#,
        "K22kAzejqtjKH10tzCkOKcuRpY53u_Y85Ozl4K79X2XYxunKdhhTc4slihlHtqqKU_zyadCZr9Rkf2V6PK_m0Ie7JJ\
         FxdXc3cLZycn9Ye7bgyYW9Yih9a0SeZwimkUwj_2MFPAeU8DPrAWiDrAmq6zWSUFwl41mv-ERnR6iM1RqdKsDsXOhY\
         DKBy_1kx1luJ1pAynjYLf3kRFz6cCA6zBe9CsFpBXAVyuDmebFEVSpnKcUT5-dPlP5BMeo8HBRK3rcRHtTUn6n1oHy\
         EwC5COiLHbd6pl4LIbGdpyxzZ-2yPABEdg2IFIQIOuYIPd2U-WDyU9waGrhwNjfCdLhow49Q",
    )
}

fn expired_token() -> String {
    token(
        HEADER,
        r#"{"sub":"user_1","sid":"sess_1","iss":"https://clerk.example","exp":1000,"iat":1700000000}"#,
        "EK7TW4ybShh90N1bB8YEt2A0qetqleLV1HSqCa4dObsjS1iWFDCQQvHTswyG23NJNE514fVzoDpYjeRCBU-xUh0qg7\
         pia4zpb3FauswuwEwmxXFVNft1NW9aAn3ut3Eo447risC6Dgd5BvA9V_rR1q5BJFpAf-XAMxfkiicWu3k-D9qQsklu\
         xg3RzSeX5Cijc8hxIf1304M5A_08t7T4BO8uNXeLGLZ8TGy6zCLGOlV4JrOlMZ6iIBnNs_ASwiQcmfa2RdLJNb_cJ4\
         cOfu-TKVq4BCJX3ITvmw1OIq_U2bDbJGxTdM7Yyvu_jGVMYk7EGK3OoAc3ifgi7fZamP65qA",
    )
}

fn no_kid_token() -> String {
    token(
        r#"{"alg":"RS256","typ":"JWT"}"#,
        r#"{"sub":"user_1","sid":"sess_1","iss":"https://clerk.example","exp":4102444800,"iat":1700000000}"#,
        "Xf8tb9SvLCH18nLb5Dzcl4ep86nVL4BULUPGZTtfpZjPmqBfFu36jBJoHb6Kp6SplSqy2BTIsieN1JvQgvSsMPpkvl\
         06dOMtfwy05PSFQE1-6PHmhcWSNEzNnl8JOrIzVmTiQpvjXX5_WQTtCP6a_EWyVfrpdmwvfjWyGmlndF3q2iNYJ2Ir\
         v3AJQi9QPR-VMvppL2XSThiUWCjXH5VswASnW7EHQba6E9yDT2rln3nffdnYD7J5V0xvva5bad5hj84nrkbPAc6Gy6\
         NvO16dGSzocj0kV-cS4lhXT0JBJCGZtpxmx3URm56im3CiPhDG8YUn4O08MfRA7kL6mAJ4Yg",
    )
}

fn no_exp_token() -> String {
    token(
        HEADER,
        r#"{"sub":"user_1","sid":"sess_1","iss":"https://clerk.example","iat":1700000000}"#,
        "FD6La9zegIR16jllEQGRoLzIgZi0Vure5jIY48fPrT89-9UjfmhV-S0EDeM8hhAfBoOC37aYpg9pt8hpukpqOCFsKt\
         u1sl8-mYme-tnX59EbYfkvoiIxWJmWvVDBZwylAv_GU-PWzx63vENr2RunRcwAUPycxPrm-j-uSqDYEWLUbg3sXLKd\
         AvLzi7LLyb0WcQWLBIarkmsjv596GHcR1Z9SxX6_mSF0XqsPdJ4edtG5yud9tRnEK-Bmj68m0djMNIa7-hYSS2VMnU\
         uhsH67cuw7GJpegmCFuUwV-sfk3adHBN88_KV0DlL0yDfRewsSuloaxJsbD7Ki56S0KVYabQ",
    )
}

fn unknown_kid_token() -> String {
    token(
        r#"{"alg":"RS256","typ":"JWT","kid":"key-9"}"#,
        r#"{"sub":"user_1","sid":"sess_1","iss":"https://clerk.example","exp":4102444800,"iat":1700000000}"#,
        "BHqy2wRWYXqWzsQSYfX0tGAdKgvraORCKTduEocEgjiuQgZ404kSIxgBsZEL5UHxs_OBu-WvoTFWvtMbEhew4FUSCr\
         L-pWTa3EcnNvo-ByHc8Hj_eVdEFw-3Su3GdgU2ktfJltfOwUU8zghMEP6GYHBolOqooP1clD8ypQIe9bzV1WYoFxdo\
         DNTAvOJz8Lm5RAbCpigf3HrW16FnJznOWmTVmkuwhA24i6WFpmVFD36LlTSiWUKPii2Ncu690rFP74lhMb9UDH3NO6\
         uV7SEvYinF9QRXQckl0s2wpgOCxv0MngKY-IBCdFXdV8R-jbpGaFgm52L2WJ55h05bCgMBjw",
    )
}

fn not_json_token() -> String {
    token(
        HEADER,
        r#"claims"#,
        "JM1QF2XiQkj2XUuXT2FpXOa5vnGX086bMd8yuIzEbuvXTnlAAenp8pBgezcDR2AspMPmPmwclSn6uKAOkmmh7rXv7I\
         ZSohJ8XJhYbtNDalrW16VLUfoWAOhqK5PO8I4DOrPovYxD1EJuZn6IMH7ySooPT9h0BEc7nytZokPI0pQa7U08lxV0\
         4rWujlMj2itvy-iJQbt88xImlAQOROICjD9v8QBi1KNNLB-5CpLB_99-KW1XsH7lv-QWPlh-rV8-OiqbjRbI-wFx8U\
         gmlNEnV4OeIp__YQlrC-KKr9yJzkSlJXXh5LyHPxxCYjI4TV85dqAXNMuqv0LIeIdoJTFkpA",
    )
}

fn latin1_token() -> String {
    token(
        HEADER,
        LATIN1_CLAIMS,
        "imnwgaYii6CIQeb9aIQYs11VxDIzfVyERzO5drPnkPB5Ju5qVb8QkQiD1QLUCGRVKCBXF1r_hHGw2QHp-lFBdpI6jh\
         xLql4BulPR7Stx93OJbw3ZZnCr28DTSN3B0z22qJOBtWmw8m8pKLkf2s0Kvg3vxNpGbE7xt0AS_I8BRYwStv_tPLM7\
         YZimYYONPwtT3j1bzcIri_ApyjE1AJw3SBvjvMSQIySrraXvM47fWbt7DcC2ZaU8P5Wa7zSZjojccqkrDFMmkyFoNI\
         wLvz48zcH6d_KYcvSA9prlViq4WGYnITHiBCn7pCSAuaVFNkTWilmo6mzCixrPSbBGM1SWnA",
    )
}

fn two_audiences_token() -> String {
    token(
        HEADER,
        r#"{"sub":"user_1","sid":"sess_1","iss":"https://clerk.example","exp":4102444800,"iat":1700000000,"aud":"api","aud":"web"}"#,
        "FLZLZd0bYnICh7Z4SKuGYuY9EayQA-7tCNxMXBzWjlqWBo2t8Y05ovbDcwywIHbTkaVVD-8240jTc5ZAjoulaIhNvK\
         8yq2OHriJKIy4yRJi4sqfdMtx5YHzhy7wmv98ii_opKyWGJQL69cIhqLcC8tbGmQHSBrT3ltLQjvxkPTU7vFNYxGiF\
         iQPVUp69GwYgoN4yHPc1AovAwWvt49vO-4ar6rFupU2yyV9KKZwkbmdObfcEpHXe-jG2rjFBQcdRiYhSTCqqcLUXd8\
         cARwdnOf4TE2BcGHSTjF5ZCYmaGyX3TnBXUN_a8kNJPb6UQ3-eDVj3Ax7jbY6nl4ECLLZFmQ",
    )
}

fn list_token() -> String {
    token(
        HEADER,
        r#"[1,2]"#,
        "pVtPLBSil6MY7Gjms9TIR7ETxYlDVovqZXrZBCp5Xa-i8QyiW0gc5W7SA75svqbUWxG0Te7ZM5Fi7AoLQ2KUCI1u2_\
         Zm5VkCze90V_QGMVAHvqmS7rIb9jwGwos1FMvgvHJmLtCIH3jhDlk6uDZ3pkYaCXsC9oRF4OqmjaP-knvSO5-LE8Ll\
         Qv_wGiocC2DC3YNJ8GTuBHDy5Wm5djMOlP6pUk_HAjQe3gwDU9XCQfJAtUOUfBUGXREiAnvZkAGfGp9v3F9bagrEEv\
         o4BPDwPzVKJU_P3DYKYsUMb_bWWzVgMZe2h-sX8YwamyGPpZ-ZY5yPHXYoRlmP7pOv_RLfKA",
    )
}

fn expired_for_api_token() -> String {
    token(
        HEADER,
        r#"{"sub":"user_1","sid":"sess_1","iss":"https://clerk.example","exp":1000,"iat":1700000000,"aud":"api"}"#,
        "FnikqjxMgLkhc4XyzFzzEh43hDsPeshrwljuBRfVZ-9a3K4JNi2o5l_xNvd6AgEc-W5QKMFCRlHy0VOm0OAqQdcyht\
         tfELROUq6mMpKPFKa0lR48v_zfjcAfpKy2prpQKXD4FuVnAwyUR94xB7nT22CLV1SoEP04wjUhzqQzjd5W7jRRNcsW\
         CXwVLbF3ujfpivPqrODuPVuBMWOYwHeeP5ealqb8PjiLeIWbxoZTjuA8krFq_59ubeqb9vBc5PBmPiHGiMnZ3MH7y3\
         LykpNM9juyXB9IiArhbzVViwf13vdnvcs_sTs0kOT8gLcg_nwl4ta9_08N2T2hkh0EVhP6MQ",
    )
}

fn token(header: &str, claims: impl AsRef<[u8]>, signature: &str) -> String {
    format!(
        "{}.{}.{}",
        URL_SAFE_NO_PAD.encode(header),
        URL_SAFE_NO_PAD.encode(claims),
        signature
    )
}

fn jwk(kid: &str, modulus: &str) -> String {
    format!(r#"{{"kty":"RSA","use":"sig","alg":"RS256","kid":"{kid}","n":"{modulus}","e":"AQAB"}}"#)
}

fn body_of(keys: &[String]) -> Vec<u8> {
    format!(r#"{{"keys":[{}]}}"#, keys.join(",")).into_bytes()
}

fn key_set(keys: &[String]) -> Arc<KeySet> {
    Arc::new(read_jwks(&body_of(keys)).unwrap())
}

fn published_body() -> Vec<u8> {
    body_of(&[jwk("key-2", OTHER_MODULUS), jwk("key-1", MODULUS)])
}

fn published() -> Arc<KeySet> {
    Arc::new(read_jwks(&published_body()).unwrap())
}

fn config(audience: Option<&str>) -> ClerkConfig {
    ClerkConfig {
        jwks_url: "https://clerk.example/.well-known/jwks.json".to_owned(),
        audience: audience.map(str::to_owned),
    }
}

fn some_claims() -> ClerkClaims {
    ClerkClaims {
        sub: "user_1".to_owned(),
        sid: "sess_1".to_owned(),
        iss: None,
        azp: None,
        exp: 4102444800,
        iat: 1700000000,
        nbf: None,
        org: None,
    }
}

fn parse_error() -> serde_json::Error {
    serde_json::from_str::<i64>("[]").unwrap_err()
}

fn checked(token: &str, audience: Option<&str>) -> CheckedToken {
    PendingToken::open(token)
        .unwrap()
        .check(&published(), &config(audience))
        .unwrap()
}

fn bearing(value: &'static str) -> HeaderMap {
    let mut headers = HeaderMap::new();
    headers.insert(header::AUTHORIZATION, HeaderValue::from_static(value));
    headers
}

#[test]
fn extract_access_token_should_read_bearer_header() {
    let mut headers = HeaderMap::new();
    headers.insert(
        header::AUTHORIZATION,
        HeaderValue::from_static("Bearer test-token-123"),
    );
    assert_eq!(
        extract_access_token(&headers).as_deref(),
        Some("test-token-123")
    );
}

#[test]
fn extract_access_token_returns_none_without_bearer() {
    let mut headers = HeaderMap::new();
    headers.insert(
        header::AUTHORIZATION,
        HeaderValue::from_static("Token test-token-123"),
    );
    assert_eq!(extract_access_token(&headers), None);
}

#[test]
fn extract_access_token_returns_none_when_no_header() {
    assert_eq!(extract_access_token(&HeaderMap::new()), None);
}

#[test]
fn extract_access_token_is_exact_about_the_scheme() {
    assert_eq!(extract_access_token(&bearing("bearer abc")), None);
    assert_eq!(extract_access_token(&bearing("Bearer")), None);
    assert_eq!(extract_access_token(&bearing(" Bearer abc")), None);
    assert_eq!(extract_access_token(&bearing("Bearer ")).as_deref(), Some(""));
    assert_eq!(
        extract_access_token(&bearing("Bearer  a b ")).as_deref(),
        Some(" a b ")
    );
}

#[test]
fn extract_access_token_takes_the_first_value() {
    let mut headers = bearing("Bearer one");
    headers.append(header::AUTHORIZATION, HeaderValue::from_static("Bearer two"));
    assert_eq!(extract_access_token(&headers).as_deref(), Some("one"));
}

#[test]
fn extract_access_token_refuses_invisible_characters() {
    let mut headers = HeaderMap::new();
    let value = HeaderValue::from_bytes("Bearer \u{e9}".as_bytes()).unwrap();
    headers.insert(header::AUTHORIZATION, value);
    assert_eq!(extract_access_token(&headers), None);
}

#[test]
fn request_without_a_token_has_no_session() {
    assert!(matches!(open_session(&HeaderMap::new()), Ok(None)));
    assert!(matches!(open_session(&bearing("Basic abc")), Ok(None)));
}

#[test]
fn request_with_a_malformed_token_is_an_error() {
    assert!(matches!(
        open_session(&bearing("Bearer test-token-123")),
        Err(ClerkError::Jwt(_))
    ));
}

#[test]
fn request_with_a_token_opens_a_session() {
    let mut headers = HeaderMap::new();
    let value = HeaderValue::from_str(&format!("Bearer {}", good_token())).unwrap();
    headers.insert(header::AUTHORIZATION, value);
    let pending = open_session(&headers).unwrap().unwrap();
    assert_eq!(pending.kid(), Some("key-1"));
}

#[test]
fn pending_token_names_its_key() {
    assert_eq!(PendingToken::open(&good_token()).unwrap().kid(), Some("key-1"));
    assert_eq!(PendingToken::open(&no_kid_token()).unwrap().kid(), None);
    assert!(matches!(PendingToken::open("a.b"), Err(ClerkError::Jwt(_))));
    assert!(matches!(PendingToken::open(""), Err(ClerkError::Jwt(_))));
}

#[test]
fn good_token_gives_its_claims() {
    let checked = checked(&good_token(), None);
    assert_eq!(
        checked.claims_text(),
        br#"{"sub":"user_1","sid":"sess_1","iss":"https://clerk.example","exp":4102444800,"iat":1700000000}"#
    );
    let claims = checked.conclude(Ok(some_claims())).unwrap();
    assert_eq!(claims.sub, "user_1");
    assert_eq!(claims.sid, "sess_1");
    assert_eq!(claims.exp, 4102444800);
}

#[test]
fn claims_that_do_not_parse_are_an_error() {
    let r = checked(&good_token(), None).conclude(Err(parse_error()));
    assert_eq!(
        r.unwrap_err().message(),
        format!("JWT verification failed: JSON error: {}", parse_error())
    );
}

#[test]
fn expired_token_is_refused_once_its_claims_parse() {
    let r = checked(&expired_token(), None).conclude(Ok(some_claims()));
    assert_eq!(
        r.unwrap_err().message(),
        "JWT verification failed: ExpiredSignature"
    );
    let r = checked(&expired_token(), None).conclude(Err(parse_error()));
    assert_eq!(
        r.unwrap_err().message(),
        format!("JWT verification failed: JSON error: {}", parse_error())
    );
}

#[test]
fn token_without_an_expiry_is_refused() {
    let r = checked(&no_exp_token(), None).conclude(Ok(some_claims()));
    assert_eq!(
        r.unwrap_err().message(),
        "JWT verification failed: Missing required claim: exp"
    );
}

#[test]
fn audience_is_skipped_or_has_to_match() {
    assert!(checked(&for_api_token(), None).conclude(Ok(some_claims())).is_ok());
    assert!(checked(&for_api_token(), Some("api")).conclude(Ok(some_claims())).is_ok());
    assert_eq!(
        checked(&for_api_token(), Some("web"))
            .conclude(Ok(some_claims()))
            .unwrap_err()
            .message(),
        "JWT verification failed: InvalidAudience"
    );
    assert!(checked(&good_token(), Some("web")).conclude(Ok(some_claims())).is_ok());
}

#[test]
fn token_with_another_signature_is_refused() {
    let good = good_token();
    let expired = expired_token();
    let message = good.rsplit_once('.').unwrap().0;
    let signature = expired.rsplit_once('.').unwrap().1;
    let mixed = format!("{message}.{signature}");
    let r = PendingToken::open(&mixed).unwrap().check(&published(), &config(None));
    assert_eq!(
        r.unwrap_err().message(),
        "JWT verification failed: InvalidSignature"
    );
}

#[test]
fn token_is_refused_under_another_key() {
    let keys = key_set(&[jwk("key-1", OTHER_MODULUS)]);
    let r = PendingToken::open(&good_token()).unwrap().check(&keys, &config(None));
    assert!(matches!(r, Err(ClerkError::Jwt(_))));
}

#[test]
fn claims_that_are_no_json_are_refused() {
    let checked_claims = checked(&not_json_token(), None);
    assert_eq!(checked_claims.claims_text(), b"claims");
    let parsed = serde_json::from_slice::<i64>(checked_claims.claims_text());
    let text = parsed.as_ref().unwrap_err().to_string();
    assert_eq!(
        checked_claims.conclude(parsed.map(|_| some_claims())).unwrap_err().message(),
        format!("JWT verification failed: JSON error: {text}")
    );
    let r = checked(&not_json_token(), None).conclude(Ok(some_claims()));
    assert_eq!(
        r.unwrap_err().message(),
        "JWT verification failed: JSON error: expected value at line 1 column 1"
    );
}

#[test]
fn claims_of_the_wrong_shape_are_refused() {
    let r = checked(&list_token(), None).conclude(Err(parse_error()));
    assert_eq!(
        r.unwrap_err().message(),
        format!("JWT verification failed: JSON error: {}", parse_error())
    );
    assert!(checked(&list_token(), None).conclude(Ok(some_claims())).is_err());
    let r = checked(&two_audiences_token(), None).conclude(Ok(some_claims()));
    assert!(r
        .unwrap_err()
        .message()
        .starts_with("JWT verification failed: JSON error: duplicate field `aud`"));
}

#[test]
fn claims_that_nothing_reads_may_hold_any_bytes() {
    let checked = checked(&latin1_token(), None);
    assert_eq!(checked.claims_text(), LATIN1_CLAIMS);
    assert!(checked.conclude(Ok(some_claims())).is_ok());
}

#[test]
fn audience_makes_no_difference_unless_expected() {
    for (plain, for_api) in [
        (good_token(), for_api_token()),
        (expired_token(), expired_for_api_token()),
    ] {
        let one = checked(&plain, None).conclude(Ok(some_claims()));
        let other = checked(&for_api, None).conclude(Ok(some_claims()));
        assert_eq!(one.is_ok(), other.is_ok());
        assert_eq!(
            one.map_err(|e| e.message()).err(),
            other.map_err(|e| e.message()).err()
        );
    }
}

#[test]
fn session_comes_to_what_its_token_does() {
    for malformed in ["test-token-123", "a.b.c", "", "e30.e30.e30"] {
        let mut headers = HeaderMap::new();
        let value = HeaderValue::from_str(&format!("Bearer {malformed}")).unwrap();
        headers.insert(header::AUTHORIZATION, value);
        assert_eq!(
            open_session(&headers).unwrap_err().message(),
            PendingToken::open(malformed).unwrap_err().message()
        );
    }
    let claims = session_claims(Ok(some_claims())).unwrap().unwrap();
    assert_eq!(claims.sub, "user_1");
    assert_eq!(
        session_claims(Err(ClerkError::KeyNotFound(None))).unwrap_err().message(),
        "no matching key found for kid=None"
    );
}

#[test]
fn token_without_a_readable_header_is_refused() {
    let doc: serde_json::Value = serde_json::from_str(&jwk("key-1", MODULUS)).unwrap();
    let key = decoding_key_from_jwk(&doc).unwrap();
    let r = check_claims(&token("{", "{}", "AAAA"), &key, &config(None));
    assert!(r.unwrap_err().message().starts_with("JWT verification failed: JSON error: "));
    let r = check_claims("no dots", &key, &config(None));
    assert_eq!(r.unwrap_err().message(), "JWT verification failed: InvalidToken");
}

#[test]
fn token_of_another_algorithm_is_refused() {
    let hs = token(r#"{"alg":"HS256","kid":"key-1"}"#, r#"{"exp":4102444800}"#, "AAAA");
    let r = PendingToken::open(&hs).unwrap().check(&published(), &config(None));
    assert_eq!(
        r.unwrap_err().message(),
        "JWT verification failed: InvalidAlgorithm"
    );
}

#[test]
fn token_without_a_known_key_is_checked_with_the_first() {
    let keys = key_set(&[jwk("key-1", MODULUS), jwk("key-2", OTHER_MODULUS)]);
    for token in [no_kid_token(), unknown_kid_token()] {
        let checked = PendingToken::open(&token)
            .unwrap()
            .check(&keys, &config(None))
            .unwrap();
        assert!(checked.conclude(Ok(some_claims())).is_ok());
        let r = PendingToken::open(&token).unwrap().check(&published(), &config(None));
        assert!(matches!(r, Err(ClerkError::Jwt(_))));
    }
}

#[test]
fn no_key_at_all_is_reported_with_the_key_id() {
    let keys = key_set(&[]);
    let r = PendingToken::open(&good_token()).unwrap().check(&keys, &config(None));
    assert_eq!(
        r.unwrap_err().message(),
        r#"no matching key found for kid=Some("key-1")"#
    );
    let r = PendingToken::open(&no_kid_token()).unwrap().check(&keys, &config(None));
    assert_eq!(r.unwrap_err().message(), "no matching key found for kid=None");
}

#[test]
fn unusable_key_is_reported() {
    let keys = key_set(&[r#"{"kid":"key-1","kty":"RSA"}"#.to_owned()]);
    let r = PendingToken::open(&good_token()).unwrap().check(&keys, &config(None));
    assert!(matches!(r, Err(ClerkError::JwksParse(_))));
    let keys = key_set(&[jwk("key-1", "n*t base64")]);
    let r = PendingToken::open(&good_token()).unwrap().check(&keys, &config(None));
    assert!(r.unwrap_err().message().starts_with("JWKS parse failed: Base64 error: "));
}

#[test]
fn step_without_cached_keys_is_to_fetch() {
    let cache = ClerkJwksCache::default();
    let pending = PendingToken::open(&good_token()).unwrap();
    let step = pending.with_cache(&cache, &config(None));
    let pending = match step {
        Step::Fetch(pending) => pending,
        _ => panic!("no fetch"),
    };
    assert_eq!(pending.kid(), Some("key-1"));
    match pending.with_refreshed(Ok(published()), &config(None)) {
        Step::Parse(checked) => assert!(checked.conclude(Ok(some_claims())).is_ok()),
        _ => panic!("no claims"),
    }
}

#[test]
fn step_with_cached_keys_follows_the_key_id_and_the_ttl() {
    let t0 = Instant::now();
    let late = t0 + Duration::from_secs(60);
    let mut cache = ClerkJwksCache::new(Duration::from_secs(60));
    assert!(cache.refresh_at(Ok(published_body()), t0).is_ok());
    let start = |token: &str, at: Instant| {
        PendingToken::open(token).unwrap().with_cache_at(&cache, at, &config(None))
    };
    assert!(matches!(start(&good_token(), t0), Step::Parse(_)));
    assert!(matches!(start(&good_token(), late), Step::Fetch(_)));
    assert!(matches!(start(&unknown_kid_token(), t0), Step::Fetch(_)));
    assert!(matches!(start(&no_kid_token(), t0), Step::Refuse(ClerkError::Jwt(_))));
    assert!(matches!(start(&no_kid_token(), late), Step::Fetch(_)));
}

#[test]
fn step_with_fetched_keys_is_to_parse_or_to_refuse() {
    let next = |keys: Arc<KeySet>| {
        PendingToken::open(&good_token())
            .unwrap()
            .with_refreshed(Ok(keys), &config(None))
    };
    assert!(matches!(next(published()), Step::Parse(_)));
    assert!(matches!(
        next(key_set(&[])),
        Step::Refuse(ClerkError::KeyNotFound(Some(_)))
    ));
    assert!(matches!(
        next(key_set(&[r#"{"kid":"key-1","kty":"RSA"}"#.to_owned()])),
        Step::Refuse(ClerkError::JwksParse(_))
    ));
    assert!(matches!(
        next(key_set(&[jwk("key-1", "n*t base64")])),
        Step::RefuseKey(ClerkError::JwksParse(_))
    ));
}

#[test]
fn key_faults_are_told_apart() {
    let value = |text: &str| serde_json::from_str::<serde_json::Value>(text).unwrap();
    assert!(make_key(&value(&jwk("key-1", MODULUS))).is_ok());
    assert!(matches!(make_key(&value("7")), Err(KeyFault::Jwk(_))));
    match make_key(&value(&jwk("key-1", "n*t base64"))) {
        Err(KeyFault::Params(text)) => assert!(text.starts_with("Base64 error: ")),
        _ => panic!("no fault"),
    }
    for usable in [
        r#"{"kty":"EC","crv":"P-256","x":"AAAA","y":"AAAA"}"#,
        r#"{"kty":"OKP","crv":"Ed25519","x":"AAAA"}"#,
        r#"{"kty":"oct","k":"AAAA"}"#,
    ] {
        let key = make_key(&value(usable)).unwrap();
        let r = check_claims(&good_token(), &key, &config(None));
        assert_eq!(
            r.unwrap_err().message(),
            "JWT verification failed: InvalidAlgorithm"
        );
    }
    for bad in [
        r#"{"kty":"EC","crv":"P-256","x":"AAAA","y":"*"}"#,
        r#"{"kty":"OKP","crv":"Ed25519","x":"*"}"#,
        r#"{"kty":"oct","k":"*"}"#,
    ] {
        assert!(matches!(make_key(&value(bad)), Err(KeyFault::Params(_))));
    }
}

#[test]
fn step_after_a_failed_refresh_is_to_refuse() {
    let pending = PendingToken::open(&good_token()).unwrap();
    let failed = Err(ClerkError::JwksParse("missing 'keys' array".to_owned()));
    assert!(matches!(
        pending.with_refreshed(failed, &config(None)),
        Step::Refuse(ClerkError::JwksParse(_))
    ));
}

#[test]
fn decoding_key_comes_from_a_jwk() {
    let doc: serde_json::Value = serde_json::from_str(&jwk("key-1", MODULUS)).unwrap();
    let key = decoding_key_from_jwk(&doc).unwrap();
    let signed = check_claims(&good_token(), &key, &config(None)).unwrap();
    assert!(signed.rejection.is_none());
    assert!(signed.claims.starts_with(br#"{"sub":"user_1""#));
    let signed = check_claims(&expired_token(), &key, &config(None)).unwrap();
    assert!(signed.rejection.is_some());
    assert!(decoding_key_from_jwk(&serde_json::Value::Null).is_err());
}

#[test]
fn rejected_claims_need_a_good_signature() {
    let reason = || {
        jsonwebtoken::errors::Error::from(jsonwebtoken::errors::ErrorKind::ExpiredSignature)
    };
    let other = jsonwebtoken::errors::Error::from(jsonwebtoken::errors::ErrorKind::InvalidToken);
    let signed = reject_claims(reason(), Ok(b"{}".to_vec())).unwrap();
    assert_eq!(signed.claims, b"{}");
    assert_eq!(signed.rejection.unwrap().to_string(), "ExpiredSignature");
    assert_eq!(
        reject_claims(reason(), Err(other)).unwrap_err().message(),
        "JWT verification failed: ExpiredSignature"
    );
}

#[test]
fn session_validation_follows_the_config() {
    let validation = session_validation(&config(Some("api")));
    assert!(validation.validate_exp);
    assert!(validation.validate_aud);
    assert!(!validation.validate_nbf);
    assert_eq!(validation.leeway, 60);
    assert_eq!(validation.algorithms, vec![jsonwebtoken::Algorithm::RS256]);
    assert!(validation.required_spec_claims.contains("exp"));
    let audiences = validation.aud.unwrap();
    assert!(audiences.contains("api"));
    assert_eq!(audiences.len(), 1);
    let validation = session_validation(&config(None));
    assert!(!validation.validate_aud);
    assert!(validation.aud.is_none());
}
