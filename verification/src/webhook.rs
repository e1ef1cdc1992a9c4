//! Svix-signed Clerk webhook signature verification.
//!
//! Clerk delivers webhooks signed with the
//! [Svix](https://docs.svix.com/receiving/verifying-payloads/how-manual) scheme: an
//! HMAC-SHA256 over `"<svix-id>.<svix-timestamp>.<body>"`, keyed by the base64-decoded webhook
//! secret (the part after the `whsec_` prefix).

use crate::clock::{since_epoch, unix_nanos, NANOS_PER_SEC};
use crate::crypto::{
    authentication_code, base64_bytes, base64_text, decode_base64, encode_base64, hmac_sha256,
    is_base64_char,
};
use crate::text::{
    chars, law_trimming_takes_off_repetitions, numeral, parse_i64, stands_at, stripped,
    trim_start_matches, trimmed,
};
use std::time::{SystemTime, SystemTimeError};
use vstd::prelude::*;
use vstd::string::to_string_from_display_ensures;
use vstd::utf8::{encode_utf8, valid_utf8};

verus! {

/// Tolerance window applied to the `svix-timestamp` header, in seconds.
pub const TOLERANCE_SECS: i64 = 300;

/// Errors returned by [`verify_webhook`].
#[derive(Debug)]
pub enum WebhookError {
    /// `svix-timestamp` header was not a valid unix timestamp.
    InvalidTimestamp,
    /// System clock is before the unix epoch.
    Clock(String),
    /// The webhook timestamp fell outside the five minute tolerance window.
    TimestampTolerance,
    /// The webhook secret could not be base64-decoded.
    SecretDecode,
    /// The request body was not valid UTF-8.
    NonUtf8Body,
    /// The decoded secret was not a valid HMAC key length.
    HmacKey,
    /// None of the provided signatures matched the expected value.
    SignatureMismatch,
}

/// What `std::str::from_utf8` reports of bytes that are no UTF-8.
#[verifier::external_type_specification]
#[verifier::external_body]
pub struct ExUtf8Error(std::str::Utf8Error);

/// `std::str::from_utf8` takes bytes for a string exactly when they are valid UTF-8, and
/// changes none of them.
pub assume_specification[ std::str::from_utf8 ](v: &[u8]) -> (r: Result<&str, std::str::Utf8Error>)
    ensures
        r is Ok <==> valid_utf8(v@),
        r matches Ok(s) ==> encode_utf8(s@) == v@,
;

/// The bytes that a delivery signs: `<id>.<timestamp>.<body>`.
pub open spec fn signed_content(id: Seq<char>, timestamp: Seq<char>, body: Seq<u8>) -> Seq<u8> {
    encode_utf8(id) + seq!['.' as u8] + encode_utf8(timestamp) + seq!['.' as u8] + body
}

/// The signature entry that belongs to a delivery: `v1,<base64 of the code>`.
pub open spec fn signature_entry(
    key: Seq<u8>,
    id: Seq<char>,
    timestamp: Seq<char>,
    body: Seq<u8>,
) -> Seq<char> {
    "v1,"@ + base64_text(hmac_sha256(key, signed_content(id, timestamp, body)))
}

/// Positions `from` to `to` of `header` are one of its space-separated entries.
pub open spec fn is_entry(header: Seq<char>, from: int, to: int) -> bool {
    &&& 0 <= from <= to <= header.len()
    &&& from == 0 || header[from - 1] == ' '
    &&& to == header.len() || header[to] == ' '
    &&& forall|k: int| from <= k < to ==> header[k] != ' '
}

/// `entry` is one of the space-separated entries of `header`.
pub open spec fn has_entry(header: Seq<char>, entry: Seq<char>) -> bool {
    exists|from: int, to: int| #[trigger]
        is_entry(header, from, to) && header.subrange(from, to) == entry
}

/// The key that a webhook secret stands for.
pub open spec fn secret_key(secret: Seq<char>) -> Option<Seq<u8>> {
    base64_bytes(trimmed(secret, "whsec_"@))
}

/// `timestamp` is within the tolerance window around `now`, both in seconds.
pub open spec fn is_timely(timestamp: int, now: int) -> bool {
    -TOLERANCE_SECS <= now - timestamp <= TOLERANCE_SECS
}

/// What becomes of a delivery that is looked at `now` seconds after the Unix epoch.
pub open spec fn webhook_outcome(
    secret: Seq<char>,
    payload: Seq<u8>,
    id: Seq<char>,
    timestamp: Seq<char>,
    signature: Seq<char>,
    now: int,
) -> Result<(), WebhookError> {
    match numeral(timestamp) {
        None => Err(WebhookError::InvalidTimestamp),
        Some(ts) => if !is_timely(ts as int, now) {
            Err(WebhookError::TimestampTolerance)
        } else {
            match secret_key(secret) {
                None => Err(WebhookError::SecretDecode),
                Some(key) => if !valid_utf8(payload) {
                    Err(WebhookError::NonUtf8Body)
                } else if has_entry(signature, signature_entry(key, id, timestamp, payload)) {
                    Ok(())
                } else {
                    Err(WebhookError::SignatureMismatch)
                },
            }
        },
    }
}

/// A timely delivery under a usable secret, with the one signature that belongs to it.
pub open spec fn is_genuine(
    secret: Seq<char>,
    payload: Seq<u8>,
    id: Seq<char>,
    timestamp: Seq<char>,
    signature: Seq<char>,
    now: int,
) -> bool {
    &&& numeral(timestamp) matches Some(ts)
    &&& is_timely(ts as int, now)
    &&& secret_key(secret) matches Some(key)
    &&& valid_utf8(payload)
    &&& signature == signature_entry(key, id, timestamp, payload)
}

/// Appends `bytes` to `out`.
fn append_bytes(out: &mut Vec<u8>, bytes: &[u8])
    ensures
        final(out)@ == old(out)@ + bytes@,
{
    let mut i: usize = 0;
    while i < bytes.len()
        invariant
            i <= bytes@.len(),
            out@ == old(out)@ + bytes@.take(i as int),
        decreases bytes@.len() - i,
    {
        assert(bytes@.take(i + 1) =~= bytes@.take(i as int).push(bytes@[i as int]));
        out.push(bytes[i]);
        i += 1;
    }
    assert(bytes@.take(i as int) =~= bytes@);
}

/// Whether `entry` is one of the space-separated entries of `header`.
fn lists_entry(header: &str, entry: &str) -> (r: bool)
    ensures
        r == has_entry(header@, entry@),
{
    let text: Vec<char> = chars(header);
    let wanted: Vec<char> = chars(entry);
    let end: usize = text.len();
    let mut from: usize = 0;
    let mut to: usize = 0;
    loop
        invariant
            text@ == header@,
            wanted@ == entry@,
            end == text@.len(),
            from <= to <= end,
            from == 0 || text@[from - 1] == ' ',
            forall|k: int| from <= k < to ==> text@[k] != ' ',
            forall|a: int, b: int| #[trigger] is_entry(text@, a, b) && b < from ==> text@.subrange(a, b) != entry@,
        decreases end - to,
    {
        if to == end || text[to] == ' ' {
            let found: bool = to - from == wanted.len() && stands_at(&text, from, &wanted);
            proof {
                let piece = text@.subrange(from as int, to as int);
                if piece.len() == entry@.len() {
                    assert(text@.skip(from as int).subrange(0, entry@.len() as int) =~= piece);
                }
                assert(found == (piece == entry@));
                assert(is_entry(text@, from as int, to as int));
            }
            if found {
                return true;
            }
            assert forall|a: int, b: int| #[trigger] is_entry(text@, a, b) && b <= to implies text@.subrange(
                a,
                b,
            ) != entry@ by {
                if b >= from {
                    if b < to {
                        assert(text@[b] == ' ');
                    }
                    if a < from {
                        assert(text@[from - 1] == ' ');
                    }
                    if a > from {
                        assert(text@[a - 1] == ' ');
                    }
                }
            }
            if to == end {
                return false;
            }
            from = to + 1;
        }
        to += 1;
    }
}

/// Verifies a webhook signature as of `now` seconds after the Unix epoch.
///
/// A genuine delivery is accepted: its signature holds no space, so it is an entry of its own.
pub fn verify_webhook_at(
    secret: &str,
    payload: &[u8],
    svix_id: &str,
    svix_timestamp: &str,
    svix_signature: &str,
    now: i64,
) -> (r: Result<(), WebhookError>)
    ensures
        r == webhook_outcome(
            secret@,
            payload@,
            svix_id@,
            svix_timestamp@,
            svix_signature@,
            now as int,
        ),
        is_genuine(secret@, payload@, svix_id@, svix_timestamp@, svix_signature@, now as int)
            ==> r is Ok,
{
    let ts: i64 = match parse_i64(svix_timestamp) {
        Some(ts) => ts,
        None => return Err(WebhookError::InvalidTimestamp),
    };
    let distance: i128 = now as i128 - ts as i128;
    if distance > TOLERANCE_SECS as i128 || distance < -(TOLERANCE_SECS as i128) {
        return Err(WebhookError::TimestampTolerance);
    }
    let key: Vec<u8> = match decode_base64(trim_start_matches(secret, "whsec_")) {
        Some(key) => key,
        None => return Err(WebhookError::SecretDecode),
    };
    if std::str::from_utf8(payload).is_err() {
        return Err(WebhookError::NonUtf8Body);
    }
    let mut signed: Vec<u8> = Vec::new();
    append_bytes(&mut signed, svix_id.as_bytes());
    signed.push('.' as u8);
    append_bytes(&mut signed, svix_timestamp.as_bytes());
    signed.push('.' as u8);
    append_bytes(&mut signed, payload);
    assert(signed@ =~= signed_content(svix_id@, svix_timestamp@, payload@));
    let code: Vec<u8> = match authentication_code(key.as_slice(), signed.as_slice()) {
        Ok(code) => code,
        Err(_) => return Err(WebhookError::HmacKey),
    };
    let encoded: String = encode_base64(code.as_slice());
    let expected: String = "v1,".to_owned().concat(encoded.as_str());
    proof {
        reveal_strlit("v1,");
        assert forall|k: int| 0 <= k < expected@.len() implies expected@[k] != ' ' by {
            if k >= 3 {
                assert(is_base64_char(encoded@[k - 3]));
            }
        }
        if svix_signature@ == expected@ {
            assert(is_entry(expected@, 0, expected@.len() as int));
            assert(expected@.subrange(0, expected@.len() as int) =~= expected@);
        }
    }
    if lists_entry(svix_signature, expected.as_str()) {
        Ok(())
    } else {
        Err(WebhookError::SignatureMismatch)
    }
}

/// `text` is how some error of the standard library tells that a clock reading lies before
/// another.
pub open spec fn tells_of_the_clock(text: String) -> bool {
    exists|e: SystemTimeError| #[trigger] to_string_from_display_ensures(&e, text)
}

/// `r` is what [`verify_webhook`] owes when the wall clock stands `nanos` nanoseconds after the
/// Unix epoch.
pub open spec fn answers_at(
    r: Result<(), WebhookError>,
    secret: Seq<char>,
    payload: Seq<u8>,
    id: Seq<char>,
    timestamp: Seq<char>,
    signature: Seq<char>,
    nanos: int,
) -> bool {
    if numeral(timestamp) is None {
        r == Err::<(), WebhookError>(WebhookError::InvalidTimestamp)
    } else if nanos < 0 {
        r matches Err(WebhookError::Clock(text)) && tells_of_the_clock(text)
    } else {
        r == webhook_outcome(
            secret,
            payload,
            id,
            timestamp,
            signature,
            ((nanos / NANOS_PER_SEC as int) as u64) as i64 as int,
        )
    }
}

/// Verifies a Clerk/Svix webhook signature.
///
/// * `secret`: the raw `CLERK_WEBHOOK_SECRET` value (e.g. `whsec_...`).
/// * `payload`: the raw request body bytes.
/// * `svix_id`, `svix_timestamp`, `svix_signature`: the corresponding request header values.
///
/// The tolerance window is five minutes to either side of the current system clock. What the
/// clock reads is decided outside: the result is the right one for a reading that
/// `SystemTime::now` gave.
pub fn verify_webhook(
    secret: &str,
    payload: &[u8],
    svix_id: &str,
    svix_timestamp: &str,
    svix_signature: &str,
) -> (r: Result<(), WebhookError>)
    ensures
        exists|clock: SystemTime|
            call_ensures(SystemTime::now, (), clock) && answers_at(
                r,
                secret@,
                payload@,
                svix_id@,
                svix_timestamp@,
                svix_signature@,
                #[trigger] unix_nanos(clock),
            ) && (unix_nanos(clock) >= 0 && is_genuine(
                secret@,
                payload@,
                svix_id@,
                svix_timestamp@,
                svix_signature@,
                ((unix_nanos(clock) / NANOS_PER_SEC as int) as u64) as i64 as int,
            ) ==> r is Ok),
{
    let clock: SystemTime = SystemTime::now();
    let r: Result<(), WebhookError> = if parse_i64(svix_timestamp).is_none() {
        Err(WebhookError::InvalidTimestamp)
    } else {
        match since_epoch(clock) {
            Ok(elapsed) => {
                let now: i64 = elapsed.as_secs() as i64;
                verify_webhook_at(secret, payload, svix_id, svix_timestamp, svix_signature, now)
            },
            Err(e) => {
                let text: String = e.to_string();
                assert(tells_of_the_clock(text));
                Err(WebhookError::Clock(text))
            },
        }
    };
    assert(answers_at(
        r,
        secret@,
        payload@,
        svix_id@,
        svix_timestamp@,
        svix_signature@,
        unix_nanos(clock),
    ));
    r
}

/// The text of an error.
pub open spec fn error_text(e: WebhookError) -> Seq<char> {
    match e {
        WebhookError::InvalidTimestamp => "invalid svix-timestamp"@,
        WebhookError::Clock(cause) => "system clock error: "@ + cause@,
        WebhookError::TimestampTolerance => "webhook timestamp outside ±5 min tolerance"@,
        WebhookError::SecretDecode => "failed to decode webhook secret"@,
        WebhookError::NonUtf8Body => "non-UTF-8 webhook body"@,
        WebhookError::HmacKey => "invalid HMAC key length"@,
        WebhookError::SignatureMismatch => "webhook signature mismatch"@,
    }
}

impl WebhookError {
    /// The text of this error, for people.
    pub fn message(&self) -> (r: String)
        ensures
            r@ == error_text(*self),
    {
        match self {
            WebhookError::InvalidTimestamp => "invalid svix-timestamp".to_owned(),
            WebhookError::Clock(cause) => "system clock error: ".to_owned().concat(cause.as_str()),
            WebhookError::TimestampTolerance => {
                "webhook timestamp outside ±5 min tolerance".to_owned()
            },
            WebhookError::SecretDecode => "failed to decode webhook secret".to_owned(),
            WebhookError::NonUtf8Body => "non-UTF-8 webhook body".to_owned(),
            WebhookError::HmacKey => "invalid HMAC key length".to_owned(),
            WebhookError::SignatureMismatch => "webhook signature mismatch".to_owned(),
        }
    }
}

/// The `whsec_` prefix of a secret is optional: what becomes of a delivery is the same with the
/// prefix and without it.
pub proof fn law_secret_prefix_is_optional(
    secret: Seq<char>,
    payload: Seq<u8>,
    id: Seq<char>,
    timestamp: Seq<char>,
    signature: Seq<char>,
    now: int,
)
    ensures
        webhook_outcome("whsec_"@ + secret, payload, id, timestamp, signature, now)
            == webhook_outcome(secret, payload, id, timestamp, signature, now),
{
    reveal_strlit("whsec_");
    let prefix = "whsec_"@;
    assert(prefix =~= (prefix + secret).subrange(0, prefix.len() as int));
    assert((prefix + secret).skip(prefix.len() as int) =~= secret);
}

/// A delivery whose timestamp is outside the tolerance window is refused for that, whatever its
/// secret, its content and its signatures are.
pub proof fn law_untimely_delivery_is_refused(
    secret: Seq<char>,
    payload: Seq<u8>,
    id: Seq<char>,
    timestamp: Seq<char>,
    signature: Seq<char>,
    now: int,
)
    requires
        numeral(timestamp) is Some,
        !is_timely(numeral(timestamp)->Some_0 as int, now),
    ensures
        webhook_outcome(secret, payload, id, timestamp, signature, now) == Err::<(), WebhookError>(
            WebhookError::TimestampTolerance,
        ),
{
}

/// A delivery is accepted for nothing but a signature of its own content under its secret, a
/// timely timestamp and a UTF-8 body.
pub proof fn law_accepted_delivery_is_signed(
    secret: Seq<char>,
    payload: Seq<u8>,
    id: Seq<char>,
    timestamp: Seq<char>,
    signature: Seq<char>,
    now: int,
)
    requires
        webhook_outcome(secret, payload, id, timestamp, signature, now) is Ok,
    ensures
        numeral(timestamp) is Some,
        is_timely(numeral(timestamp)->Some_0 as int, now),
        valid_utf8(payload),
        secret_key(secret) is Some,
        has_entry(
            signature,
            signature_entry(secret_key(secret)->Some_0, id, timestamp, payload),
        ),
{
}

/// An entry without a space in it is listed by any header that it stands in between spaces: at
/// the front, at the end, in the middle or alone.
pub proof fn law_entry_among_others_is_listed(
    before: Seq<char>,
    entry: Seq<char>,
    after: Seq<char>,
)
    requires
        !entry.contains(' '),
    ensures
        has_entry(entry, entry),
        has_entry(entry.push(' ') + after, entry),
        has_entry(before.push(' ') + entry, entry),
        has_entry(before.push(' ') + entry.push(' ') + after, entry),
{
    let n = entry.len() as int;
    let m = before.len() as int + 1;
    let h1 = entry.push(' ') + after;
    let h2 = before.push(' ') + entry;
    let h3 = before.push(' ') + entry.push(' ') + after;
    assert forall|k: int| 0 <= k < n implies entry[k] != ' ' by {
        assert(entry.contains(entry[k]));
    }
    assert(is_entry(entry, 0, n) && entry.subrange(0, n) =~= entry);
    assert(is_entry(h1, 0, n) && h1.subrange(0, n) =~= entry);
    assert(is_entry(h2, m, m + n) && h2.subrange(m, m + n) =~= entry);
    assert(is_entry(h3, m, m + n) && h3.subrange(m, m + n) =~= entry);
}

/// A delivery stays accepted when its header lists further signatures, before or after the ones
/// that it had.
pub proof fn law_further_signatures_do_no_harm(
    secret: Seq<char>,
    payload: Seq<u8>,
    id: Seq<char>,
    timestamp: Seq<char>,
    signature: Seq<char>,
    further: Seq<char>,
    now: int,
)
    requires
        webhook_outcome(secret, payload, id, timestamp, signature, now) is Ok,
    ensures
        webhook_outcome(secret, payload, id, timestamp, signature.push(' ') + further, now) is Ok,
        webhook_outcome(secret, payload, id, timestamp, further.push(' ') + signature, now) is Ok,
{
    let entry = signature_entry(secret_key(secret)->Some_0, id, timestamp, payload);
    let (from, to) = choose|from: int, to: int| #[trigger]
        is_entry(signature, from, to) && signature.subrange(from, to) == entry;
    let h1 = signature.push(' ') + further;
    let h2 = further.push(' ') + signature;
    let m = further.len() as int + 1;
    assert(is_entry(h1, from, to) && h1.subrange(from, to) =~= entry);
    assert forall|k: int| m + from <= k < m + to implies h2[k] != ' ' by {
        assert(h2[k] == signature[k - m]);
    }
    assert(is_entry(h2, m + from, m + to) && h2.subrange(m + from, m + to) =~= entry);
}

/// A delivery that was accepted for a single signature is refused once its body is another one
/// with another signature of its own.
pub proof fn law_tampered_body_is_refused(
    secret: Seq<char>,
    payload: Seq<u8>,
    tampered: Seq<u8>,
    id: Seq<char>,
    timestamp: Seq<char>,
    signature: Seq<char>,
    now: int,
)
    requires
        webhook_outcome(secret, payload, id, timestamp, signature, now) is Ok,
        !signature.contains(' '),
        valid_utf8(tampered),
        signature_entry(secret_key(secret)->Some_0, id, timestamp, tampered) != signature_entry(
            secret_key(secret)->Some_0,
            id,
            timestamp,
            payload,
        ),
    ensures
        webhook_outcome(secret, tampered, id, timestamp, signature, now) == Err::<(), WebhookError>(
            WebhookError::SignatureMismatch,
        ),
{
    assert forall|from: int, to: int| #[trigger] is_entry(signature, from, to) implies from == 0
        && to == signature.len() by {
        if from > 0 {
            assert(signature.contains(signature[from - 1]));
        }
        if to < signature.len() {
            assert(signature.contains(signature[to]));
        }
    }
    assert(signature.subrange(0, signature.len() as int) =~= signature);
}

/// What a delivery signs is the whole of it: the ID, a dot, the timestamp, a dot and the body,
/// each in full and in its place, and nothing more.
pub proof fn law_whole_delivery_is_signed(id: Seq<char>, timestamp: Seq<char>, body: Seq<u8>)
    ensures
        ({
            let content = signed_content(id, timestamp, body);
            let first = encode_utf8(id).len() as int;
            let second = first + 1 + encode_utf8(timestamp).len();
            &&& content.len() == second + 1 + body.len()
            &&& content.take(first) == encode_utf8(id)
            &&& content[first] == 46
            &&& content.subrange(first + 1, second) == encode_utf8(timestamp)
            &&& content[second] == 46
            &&& content.skip(second + 1) == body
        }),
{
    let content = signed_content(id, timestamp, body);
    let first = encode_utf8(id).len() as int;
    let second = first + 1 + encode_utf8(timestamp).len();
    assert(content.take(first) =~= encode_utf8(id));
    assert(content.subrange(first + 1, second) =~= encode_utf8(timestamp));
    assert(content.skip(second + 1) =~= body);
}

/// Deliveries with the same ID and timestamp and with different bodies sign different content.
pub proof fn law_other_body_is_other_content(
    id: Seq<char>,
    timestamp: Seq<char>,
    body: Seq<u8>,
    other: Seq<u8>,
)
    requires
        body != other,
    ensures
        signed_content(id, timestamp, body) != signed_content(id, timestamp, other),
{
    law_whole_delivery_is_signed(id, timestamp, body);
    law_whole_delivery_is_signed(id, timestamp, other);
}

/// Deliveries with the same body and with different timestamps, or with different IDs, sign
/// different content, as long as the ID has no dot in it.
pub proof fn law_other_headers_are_other_content(
    id: Seq<char>,
    timestamp: Seq<char>,
    other_id: Seq<char>,
    other_timestamp: Seq<char>,
    body: Seq<u8>,
)
    requires
        encode_utf8(id) != encode_utf8(other_id) || encode_utf8(timestamp) != encode_utf8(
            other_timestamp,
        ),
        !encode_utf8(id).contains(46),
        !encode_utf8(other_id).contains(46),
    ensures
        signed_content(id, timestamp, body) != signed_content(other_id, other_timestamp, body),
{
    law_whole_delivery_is_signed(id, timestamp, body);
    law_whole_delivery_is_signed(other_id, other_timestamp, body);
    let a = encode_utf8(id);
    let b = encode_utf8(other_id);
    let content = signed_content(id, timestamp, body);
    if content == signed_content(other_id, other_timestamp, body) {
        if a.len() < b.len() {
            assert(content.take(b.len() as int)[a.len() as int] == 46);
            assert(b.contains(b[a.len() as int]));
        } else if b.len() < a.len() {
            assert(content.take(a.len() as int)[b.len() as int] == 46);
            assert(a.contains(a[b.len() as int]));
        }
    }
}

/// The key of a secret is what the secret is in base64, all of it, once no `whsec_` stands in
/// front of it any more.
pub proof fn law_secret_is_the_key_in_base64(secret: Seq<char>)
    ensures
        stripped(secret, "whsec_"@) is None ==> secret_key(secret) == base64_bytes(secret),
        secret_key("whsec_"@ + secret) == secret_key(secret),
{
    law_trimming_takes_off_repetitions("whsec_"@, secret);
}

/// The entries of a signature header are what stands between its spaces: an entry has no space in
/// it, and the header goes on with a space, or ends, on either side of it.
pub proof fn law_listed_entry_stands_between_spaces(header: Seq<char>, entry: Seq<char>)
    ensures
        has_entry(header, entry) <==> !entry.contains(' ') && exists|
            before: Seq<char>,
            after: Seq<char>,
        | #[trigger] (before + entry + after) == header && (before.len() == 0 || before.last()
            == ' ') && (after.len() == 0 || after[0] == ' '),
{
    if has_entry(header, entry) {
        let (from, to) = choose|from: int, to: int| #[trigger]
            is_entry(header, from, to) && header.subrange(from, to) == entry;
        assert forall|k: int| 0 <= k < entry.len() implies entry[k] != ' ' by {
            assert(entry[k] == header[from + k]);
        }
        let before = header.take(from);
        let after = header.skip(to);
        assert(before + entry + after =~= header);
    }
    if !entry.contains(' ') && exists|before: Seq<char>, after: Seq<char>|
        #[trigger] (before + entry + after) == header && (before.len() == 0 || before.last() == ' ')
            && (after.len() == 0 || after[0] == ' ') {
        let (before, after) = choose|before: Seq<char>, after: Seq<char>|
            #[trigger] (before + entry + after) == header && (before.len() == 0 || before.last()
                == ' ') && (after.len() == 0 || after[0] == ' ');
        let from = before.len() as int;
        let to = from + entry.len();
        assert forall|k: int| from <= k < to implies header[k] != ' ' by {
            assert(header[k] == entry[k - from]);
            assert(entry.contains(entry[k - from]));
        }
        assert(is_entry(header, from, to));
        assert(header.subrange(from, to) =~= entry);
    }
}

/// A timely UTF-8 delivery under a usable secret is accepted if and only if its signature header
/// has, between spaces, `v1,` and the base64 text of the HMAC-SHA256 code of the whole delivery
/// under the key of the secret.
pub proof fn law_delivery_is_accepted_for_its_signature(
    secret: &str,
    payload: &[u8],
    id: &str,
    timestamp: &str,
    signature: &str,
    now: i64,
    r: Result<(), WebhookError>,
    key: Seq<u8>,
    content: Seq<u8>,
    ts: i64,
)
    requires
        call_ensures(verify_webhook_at, (secret, payload, id, timestamp, signature, now), r),
        content == encode_utf8(id@) + seq![46u8] + encode_utf8(timestamp@) + seq![46u8] + payload@,
        base64_bytes(trimmed(secret@, "whsec_"@)) == Some(key),
        numeral(timestamp@) == Some(ts),
        -300 <= now - ts <= 300,
        valid_utf8(payload@),
    ensures
        ({
            let entry = "v1,"@ + base64_text(hmac_sha256(key, content));
            &&& r is Ok ==> exists|before: Seq<char>, after: Seq<char>|
                #[trigger] (before + entry + after) == signature@ && (before.len() == 0
                    || before.last() == ' ') && (after.len() == 0 || after[0] == ' ')
            &&& forall|before: Seq<char>, after: Seq<char>|
                #[trigger] (before + entry + after) == signature@ && (before.len() == 0
                    || before.last() == ' ') && (after.len() == 0 || after[0] == ' ')
                    && !entry.contains(' ') ==> r is Ok
            &&& signature@ == entry ==> r is Ok
            &&& r is Err ==> r == Err::<(), WebhookError>(WebhookError::SignatureMismatch)
        }),
{
    let entry = "v1,"@ + base64_text(hmac_sha256(key, content));
    assert(content =~= signed_content(id@, timestamp@, payload@));
    assert(entry == signature_entry(key, id@, timestamp@, payload@));
    law_listed_entry_stands_between_spaces(signature@, entry);
    if signature@ == entry {
        assert(is_genuine(secret@, payload@, id@, timestamp@, signature@, now as int));
    }
}

/// A delivery is refused for the first thing that is wrong with it, in this order: the timestamp
/// is no number, it is more than five minutes away, the secret is not base64, the body is not
/// UTF-8. Nothing of that goes unnoticed, and the clock and the length of the key are no matter.
pub proof fn law_delivery_is_refused_for_what_is_wrong(
    secret: &str,
    payload: &[u8],
    id: &str,
    timestamp: &str,
    signature: &str,
    now: i64,
    r: Result<(), WebhookError>,
)
    requires
        call_ensures(verify_webhook_at, (secret, payload, id, timestamp, signature, now), r),
    ensures
        ({
            let number = numeral(timestamp@);
            let far = number is Some && (now - number->Some_0 > 300 || number->Some_0 - now > 300);
            let fine = number is Some && !far;
            let no_key = base64_bytes(trimmed(secret@, "whsec_"@)) is None;
            &&& r == Err::<(), WebhookError>(WebhookError::InvalidTimestamp) <==> number is None
            &&& r == Err::<(), WebhookError>(WebhookError::TimestampTolerance) <==> far
            &&& r == Err::<(), WebhookError>(WebhookError::SecretDecode) <==> fine && no_key
            &&& r == Err::<(), WebhookError>(WebhookError::NonUtf8Body) <==> fine && !no_key
                && !valid_utf8(payload@)
            &&& r is Ok ==> fine && !no_key && valid_utf8(payload@)
            &&& r matches Err(e) ==> !(e is HmacKey) && !(e is Clock)
        }),
{
}

/// The timestamp of a delivery is held against the wall clock: one that is accepted is within
/// five minutes of the reading, and one that is further from it is refused for that. A reading
/// that is in order is before the end of the range of `i64` seconds.
pub proof fn law_timestamp_is_held_against_the_clock(
    r: Result<(), WebhookError>,
    secret: Seq<char>,
    payload: Seq<u8>,
    id: Seq<char>,
    timestamp: Seq<char>,
    signature: Seq<char>,
    nanos: int,
)
    requires
        answers_at(r, secret, payload, id, timestamp, signature, nanos),
        nanos < 0x7fff_ffff_ffff_ffff * 1_000_000_000,
    ensures
        r is Ok ==> nanos >= 0 && numeral(timestamp) is Some && -300 <= nanos / 1_000_000_000
            - numeral(timestamp)->Some_0 <= 300,
        nanos >= 0 && numeral(timestamp) is Some && !(-300 <= nanos / 1_000_000_000 - numeral(
            timestamp,
        )->Some_0 <= 300) ==> r == Err::<(), WebhookError>(WebhookError::TimestampTolerance),
        nanos >= 0 && numeral(timestamp) is Some && -300 <= nanos / 1_000_000_000 - numeral(
            timestamp,
        )->Some_0 <= 300 ==> r != Err::<(), WebhookError>(WebhookError::TimestampTolerance),
        nanos < 0 && numeral(timestamp) is Some ==> r is Err && r->Err_0 is Clock,
        numeral(timestamp) is None ==> r == Err::<(), WebhookError>(
            WebhookError::InvalidTimestamp,
        ),
{
}

/// A verified delivery was sent within five minutes of a reading that the wall clock gave, and one
/// whose timestamp is further away from whatever the clock gives is refused for that.
pub proof fn law_replayed_delivery_is_refused(
    secret: &str,
    payload: &[u8],
    id: &str,
    timestamp: &str,
    signature: &str,
    r: Result<(), WebhookError>,
    ts: i64,
)
    requires
        call_ensures(verify_webhook, (secret, payload, id, timestamp, signature), r),
        numeral(timestamp@) == Some(ts),
        forall|clock: SystemTime| #[trigger]
            call_ensures(SystemTime::now, (), clock) ==> 0 <= unix_nanos(clock)
                < 0x7fff_ffff_ffff_ffff * 1_000_000_000,
    ensures
        r is Ok ==> exists|clock: SystemTime| #[trigger]
            call_ensures(SystemTime::now, (), clock) && -300 <= unix_nanos(clock) / 1_000_000_000
                - ts <= 300,
        (forall|clock: SystemTime| #[trigger]
            call_ensures(SystemTime::now, (), clock) ==> !(-300 <= unix_nanos(clock)
                / 1_000_000_000 - ts <= 300)) ==> r == Err::<(), WebhookError>(
            WebhookError::TimestampTolerance,
        ),
{
    let clock = choose|clock: SystemTime|
        call_ensures(SystemTime::now, (), clock) && answers_at(
            r,
            secret@,
            payload@,
            id@,
            timestamp@,
            signature@,
            #[trigger] unix_nanos(clock),
        );
    assert(call_ensures(SystemTime::now, (), clock));
    law_timestamp_is_held_against_the_clock(
        r,
        secret@,
        payload@,
        id@,
        timestamp@,
        signature@,
        unix_nanos(clock),
    );
}

/// A verified delivery has its signature between the spaces of its header: `v1,` and the base64
/// text of the HMAC-SHA256 code of the whole delivery, under the key of the secret. One that has
/// this signature, and a timestamp within five minutes of whatever the wall clock gives, is
/// verified.
pub proof fn law_verified_delivery_is_signed(
    secret: &str,
    payload: &[u8],
    id: &str,
    timestamp: &str,
    signature: &str,
    r: Result<(), WebhookError>,
    key: Seq<u8>,
    content: Seq<u8>,
    ts: i64,
)
    requires
        call_ensures(verify_webhook, (secret, payload, id, timestamp, signature), r),
        base64_bytes(trimmed(secret@, "whsec_"@)) == Some(key),
        content == encode_utf8(id@) + seq![46u8] + encode_utf8(timestamp@) + seq![46u8] + payload@,
        numeral(timestamp@) == Some(ts),
    ensures
        ({
            let entry = "v1,"@ + base64_text(hmac_sha256(key, content));
            &&& r is Ok ==> valid_utf8(payload@)
            &&& r is Ok ==> exists|before: Seq<char>, after: Seq<char>|
                #[trigger] (before + entry + after) == signature@ && (before.len() == 0
                    || before.last() == ' ') && (after.len() == 0 || after[0] == ' ')
            &&& (signature@ == entry && valid_utf8(payload@) && forall|clock: SystemTime|
                #[trigger] call_ensures(SystemTime::now, (), clock) ==> 0 <= unix_nanos(clock)
                    < 0x7fff_ffff_ffff_ffff * 1_000_000_000 && -300 <= unix_nanos(clock)
                    / 1_000_000_000 - ts <= 300) ==> r is Ok
        }),
{
    let entry = "v1,"@ + base64_text(hmac_sha256(key, content));
    assert(content =~= signed_content(id@, timestamp@, payload@));
    assert(entry == signature_entry(key, id@, timestamp@, payload@));
    law_listed_entry_stands_between_spaces(signature@, entry);
    let clock = choose|clock: SystemTime|
        call_ensures(SystemTime::now, (), clock) && answers_at(
            r,
            secret@,
            payload@,
            id@,
            timestamp@,
            signature@,
            #[trigger] unix_nanos(clock),
        ) && (unix_nanos(clock) >= 0 && is_genuine(
            secret@,
            payload@,
            id@,
            timestamp@,
            signature@,
            ((unix_nanos(clock) / NANOS_PER_SEC as int) as u64) as i64 as int,
        ) ==> r is Ok);
    assert(call_ensures(SystemTime::now, (), clock));
}

/// What a delivery comes to by the wall clock is what it comes to at the second that the clock
/// reads.
pub proof fn law_clock_decides_nothing_but_the_second(
    secret: &str,
    payload: &[u8],
    id: &str,
    timestamp: &str,
    signature: &str,
    r: Result<(), WebhookError>,
    nanos: int,
    now: i64,
    at_now: Result<(), WebhookError>,
)
    requires
        answers_at(r, secret@, payload@, id@, timestamp@, signature@, nanos),
        0 <= nanos < 0x7fff_ffff_ffff_ffff * 1_000_000_000,
        now == nanos / 1_000_000_000,
        call_ensures(verify_webhook_at, (secret, payload, id, timestamp, signature, now), at_now),
    ensures
        r == at_now,
{
}

/// The message of an error says what is wrong, and that of the clock ends in the text of its
/// cause.
pub proof fn law_message_says_what_is_wrong(e: &WebhookError, text: String)
    requires
        call_ensures(WebhookError::message, (e,), text),
    ensures
        *e matches WebhookError::Clock(cause) ==> text@ == "system clock error: "@ + cause@,
        *e is InvalidTimestamp ==> text@ == "invalid svix-timestamp"@,
        *e is TimestampTolerance ==> text@ == "webhook timestamp outside ±5 min tolerance"@,
        *e is SecretDecode ==> text@ == "failed to decode webhook secret"@,
        *e is NonUtf8Body ==> text@ == "non-UTF-8 webhook body"@,
        *e is HmacKey ==> text@ == "invalid HMAC key length"@,
        *e is SignatureMismatch ==> text@ == "webhook signature mismatch"@,
{
}

} // verus!
