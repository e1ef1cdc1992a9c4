//! Webhook signatures.

use base64::engine::general_purpose::STANDARD;
use base64::Engine;
use bjorst_clerk_axum::webhook::{
    verify_webhook, verify_webhook_at, WebhookError, TOLERANCE_SECS,
};
use hmac::{Hmac, Mac};
use sha2::Sha256;
use std::time::{SystemTime, UNIX_EPOCH};

/// Produce a valid signature for the given inputs, by the Svix scheme.
fn sign(secret_b64: &str, id: &str, ts: &str, body: &str) -> String {
    let secret_bytes = STANDARD.decode(secret_b64).unwrap();
    let signed = format!("{id}.{ts}.{body}");
    let mut mac = Hmac::<Sha256>::new_from_slice(&secret_bytes).unwrap();
    mac.update(signed.as_bytes());
    let sig = STANDARD.encode(mac.finalize().into_bytes());
    format!("v1,{sig}")
}

fn now_ts() -> String {
    SystemTime::now()
        .duration_since(UNIX_EPOCH)
        .unwrap()
        .as_secs()
        .to_string()
}

fn secret_b64() -> String {
    STANDARD.encode(b"super-secret-key")
}

#[test]
fn accepts_valid_signature() {
    let secret_b64 = STANDARD.encode(b"super-secret-key");
    let secret = format!("whsec_{secret_b64}");
    let id = "msg_123";
    let ts = now_ts();
    let body = r#"{"type":"user.created"}"#;
    let sig = sign(&secret_b64, id, &ts, body);
    assert!(verify_webhook(&secret, body.as_bytes(), id, &ts, &sig).is_ok());
}

#[test]
fn rejects_tampered_body() {
    let secret_b64 = STANDARD.encode(b"super-secret-key");
    let secret = format!("whsec_{secret_b64}");
    let id = "msg_123";
    let ts = now_ts();
    let sig = sign(&secret_b64, id, &ts, r#"{"type":"user.created"}"#);
    let tampered = r#"{"type":"user.deleted"}"#;
    assert!(matches!(
        verify_webhook(&secret, tampered.as_bytes(), id, &ts, &sig),
        Err(WebhookError::SignatureMismatch)
    ));
}

#[test]
fn rejects_stale_timestamp() {
    let secret_b64 = STANDARD.encode(b"super-secret-key");
    let secret = format!("whsec_{secret_b64}");
    let id = "msg_123";
    let ts = "1000000000"; // far in the past
    let body = "{}";
    let sig = sign(&secret_b64, id, ts, body);
    assert!(matches!(
        verify_webhook(&secret, body.as_bytes(), id, ts, &sig),
        Err(WebhookError::TimestampTolerance)
    ));
}

#[test]
fn accepts_signature_among_multiple() {
    let secret_b64 = STANDARD.encode(b"super-secret-key");
    let secret = format!("whsec_{secret_b64}");
    let id = "msg_123";
    let ts = now_ts();
    let body = "{}";
    let valid = sign(&secret_b64, id, &ts, body);
    let multi = format!("v1,wrongsig {valid}");
    assert!(verify_webhook(&secret, body.as_bytes(), id, &ts, &multi).is_ok());
}

#[test]
fn known_signature_is_exact() {
    // Computed with another HMAC-SHA256 implementation.
    let sig = "v1,iE0ruXik162xmZgeycQTqLyj3gYxSQeV8ddlM4Z9dYA=";
    assert_eq!(sign(&secret_b64(), "msg_123", "1700000000", "{}"), sig);
    let secret = secret_b64();
    assert!(verify_webhook_at(&secret, b"{}", "msg_123", "1700000000", sig, 1700000000).is_ok());
    assert!(matches!(
        verify_webhook_at(&secret, b"{}", "msg_124", "1700000000", sig, 1700000000),
        Err(WebhookError::SignatureMismatch)
    ));
}

#[test]
fn tolerance_window_is_closed_on_both_sides() {
    let secret = secret_b64();
    let ts: i64 = 1700000000;
    let sig = sign(&secret, "m", "1700000000", "{}");
    for now in [ts - TOLERANCE_SECS, ts, ts + TOLERANCE_SECS] {
        assert!(verify_webhook_at(&secret, b"{}", "m", "1700000000", &sig, now).is_ok());
    }
    for now in [ts - 301, ts + 301, 0, i64::MAX, i64::MIN] {
        assert!(matches!(
            verify_webhook_at(&secret, b"{}", "m", "1700000000", &sig, now),
            Err(WebhookError::TimestampTolerance)
        ));
    }
}

#[test]
fn remote_timestamps_are_out_of_tolerance() {
    for ts in ["-9223372036854775808", "9223372036854775807", "-9223372035154775808"] {
        assert!(matches!(
            verify_webhook_at("", b"", "m", ts, "", 1700000000),
            Err(WebhookError::TimestampTolerance)
        ));
    }
}

#[test]
fn timestamp_has_to_be_a_number() {
    for ts in ["", "+", "-", "12a", " 1700000000", "1_0", "9223372036854775808", "1.5"] {
        assert!(matches!(
            verify_webhook_at("", b"", "m", ts, "", 0),
            Err(WebhookError::InvalidTimestamp)
        ));
        assert!(matches!(
            verify_webhook("", b"", "m", ts, ""),
            Err(WebhookError::InvalidTimestamp)
        ));
    }
}

#[test]
fn timestamp_is_signed_as_it_is_written() {
    let secret = secret_b64();
    let sig = sign(&secret, "m", "+01700000000", "{}");
    assert!(verify_webhook_at(&secret, b"{}", "m", "+01700000000", &sig, 1700000000).is_ok());
    assert!(matches!(
        verify_webhook_at(&secret, b"{}", "m", "1700000000", &sig, 1700000000),
        Err(WebhookError::SignatureMismatch)
    ));
}

#[test]
fn secret_prefix_is_optional_and_may_repeat() {
    let secret = secret_b64();
    let sig = sign(&secret, "m", "1700000000", "{}");
    for prefix in ["", "whsec_", "whsec_whsec_"] {
        let secret = format!("{prefix}{secret}");
        assert!(verify_webhook_at(&secret, b"{}", "m", "1700000000", &sig, 1700000000).is_ok());
    }
}

#[test]
fn secret_has_to_be_base64() {
    for secret in ["whsec_***", "whsec_abc", "whsec_YQ", "whsec_YR==", "whsec_ YQ=="] {
        assert!(matches!(
            verify_webhook_at(secret, b"{}", "m", "1700000000", "", 1700000000),
            Err(WebhookError::SecretDecode)
        ));
    }
}

#[test]
fn empty_secret_is_an_empty_key() {
    let sig = sign("", "m", "1700000000", "{}");
    assert!(verify_webhook_at("whsec_", b"{}", "m", "1700000000", &sig, 1700000000).is_ok());
}

#[test]
fn body_has_to_be_utf8() {
    let secret = secret_b64();
    for body in [&[0xffu8][..], &[0xc0, 0x80], &[0xed, 0xa0, 0x80], &[0xe2, 0x82]] {
        assert!(matches!(
            verify_webhook_at(&secret, body, "m", "1700000000", "", 1700000000),
            Err(WebhookError::NonUtf8Body)
        ));
    }
    let body = "\u{e9}\u{20ac}\u{1f600}";
    let sig = sign(&secret, "\u{fc}", "1700000000", body);
    assert!(verify_webhook_at(
        &secret,
        body.as_bytes(),
        "\u{fc}",
        "1700000000",
        &sig,
        1700000000
    )
    .is_ok());
}

#[test]
fn first_failing_check_is_reported() {
    assert!(matches!(
        verify_webhook_at("***", &[0xff], "m", "x", "", 0),
        Err(WebhookError::InvalidTimestamp)
    ));
    assert!(matches!(
        verify_webhook_at("***", &[0xff], "m", "1000", "", 0),
        Err(WebhookError::TimestampTolerance)
    ));
    assert!(matches!(
        verify_webhook_at("***", &[0xff], "m", "0", "", 0),
        Err(WebhookError::SecretDecode)
    ));
    assert!(matches!(
        verify_webhook_at("", &[0xff], "m", "0", "", 0),
        Err(WebhookError::NonUtf8Body)
    ));
    assert!(matches!(
        verify_webhook_at("", b"", "m", "0", "", 0),
        Err(WebhookError::SignatureMismatch)
    ));
}

#[test]
fn signature_has_to_be_a_whole_entry() {
    let secret = secret_b64();
    let sig = sign(&secret, "m", "0", "{}");
    let bare = sig.strip_prefix("v1,").unwrap();
    let at = |header: &str| verify_webhook_at(&secret, b"{}", "m", "0", header, 0);
    for header in [
        format!("{sig} v1,x"),
        format!("  {sig}"),
        format!("v2,{bare} {sig} v1,"),
        format!("{sig} "),
    ] {
        assert!(at(&header).is_ok());
    }
    for header in [
        bare.to_owned(),
        format!("v2,{bare}"),
        format!("{sig}x"),
        format!("v1,{sig}"),
        format!("v1, {bare}"),
        format!("x,{sig}"),
        String::new(),
        " ".to_owned(),
    ] {
        assert!(matches!(at(&header), Err(WebhookError::SignatureMismatch)));
    }
}

#[test]
fn webhook_errors_have_texts() {
    assert_eq!(WebhookError::InvalidTimestamp.message(), "invalid svix-timestamp");
    assert_eq!(
        WebhookError::Clock("behind".to_owned()).message(),
        "system clock error: behind"
    );
    assert_eq!(
        WebhookError::TimestampTolerance.message(),
        "webhook timestamp outside \u{b1}5 min tolerance"
    );
    assert_eq!(WebhookError::SecretDecode.message(), "failed to decode webhook secret");
    assert_eq!(WebhookError::NonUtf8Body.message(), "non-UTF-8 webhook body");
    assert_eq!(WebhookError::HmacKey.message(), "invalid HMAC key length");
    assert_eq!(WebhookError::SignatureMismatch.message(), "webhook signature mismatch");
}
