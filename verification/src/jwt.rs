//! Token signatures and token checks, as `jsonwebtoken` does them.

use crate::claims::ClerkConfig;
use crate::crypto::{base64url_bytes, decode_base64url};
use crate::error::{has_text, ClerkError};
use crate::json::{array_of, copy, json, json_document, object_of, Json};
use crate::text::{
    chars, find_last, last_position, law_last_position_is_the_last, string_chars,
};
use jsonwebtoken::errors::ErrorKind;
use jsonwebtoken::jwk::{Jwk, JwkSet};
use jsonwebtoken::{Algorithm, DecodingKey, Validation};
use serde::de::IgnoredAny;
use serde_json::Value;
use std::collections::HashSet;
use vstd::prelude::*;

verus! {

/// A parsed JWK.
#[verifier::external_type_specification]
#[verifier::external_body]
pub struct ExJwk(Jwk);

/// A key that signatures are checked with.
#[verifier::external_type_specification]
#[verifier::external_body]
pub struct ExDecodingKey(DecodingKey);

/// The checks that a token has to pass.
#[verifier::external_type_specification]
#[verifier::external_body]
pub struct ExValidation(Validation);

/// The parameters that a JWK gives for its key, as they are written.
pub enum KeyParams {
    Rsa { n: Seq<char>, e: Seq<char> },
    EllipticCurve { x: Seq<char>, y: Seq<char> },
    OctetKeyPair { x: Seq<char> },
    Octet { k: Seq<char> },
}

/// The algorithms that a key is for.
pub enum KeyFamily {
    Hmac,
    Rsa,
    Ec,
    Ed,
}

/// What a key for checking signatures consists of: its family and its secret or point, or its
/// modulus and exponent.
pub struct KeyParts {
    pub family: KeyFamily,
    pub parts: Seq<Seq<u8>>,
}

/// The checks that a token has to pass.
#[verifier::ext_equal]
pub struct Rules {
    /// The signature is checked at all.
    pub validate_signature: bool,
    /// The names of the signature algorithms that are let through.
    pub algorithms: Seq<Seq<char>>,
    /// The registered claims that have to be there.
    pub required: Set<Seq<char>>,
    /// Clock skew that is let through, in seconds.
    pub leeway: nat,
    /// How long before its expiry a token counts as expired, in seconds.
    pub margin: nat,
    pub validate_exp: bool,
    pub validate_nbf: bool,
    pub validate_aud: bool,
    pub aud: Option<Set<Seq<char>>>,
    pub iss: Option<Set<Seq<char>>>,
    pub sub: Option<Seq<char>>,
}

impl Rules {
    /// These checks compare the claims with the clock.
    pub open spec fn read_the_clock(self) -> bool {
        self.validate_exp || self.validate_nbf
    }

    /// The same checks of the signature, and none of the claims.
    pub open spec fn signature_alone(self) -> Rules {
        Rules {
            validate_signature: self.validate_signature,
            algorithms: self.algorithms,
            required: Set::empty(),
            leeway: self.leeway,
            margin: self.margin,
            validate_exp: false,
            validate_nbf: false,
            validate_aud: false,
            aud: None,
            iss: None,
            sub: None,
        }
    }
}

/// The checks that `jsonwebtoken` sets up for RS256 tokens: `exp` has to be there and not be
/// past by more than a minute, and a token that names an audience is refused.
pub open spec fn rs256_rules() -> Rules {
    Rules {
        validate_signature: true,
        algorithms: seq!["RS256"@],
        required: set!["exp"@],
        leeway: 60,
        margin: 0,
        validate_exp: true,
        validate_nbf: false,
        validate_aud: true,
        aud: None,
        iss: None,
        sub: None,
    }
}

/// The checks that a session token has to pass: those for RS256 tokens, with `audience` as the
/// one audience, or with no look at the audience.
pub open spec fn session_rules(audience: Option<Seq<char>>) -> Rules {
    match audience {
        Some(aud) => Rules { aud: Some(set![aud]), ..rs256_rules() },
        None => Rules { validate_aud: false, ..rs256_rules() },
    }
}

/// Every session token has to be an RS256 token that says when it expires and is held to it,
/// whatever the audience.
pub proof fn law_session_tokens_expire(audience: Option<Seq<char>>)
    ensures
        session_rules(audience).algorithms == seq!["RS256"@],
        session_rules(audience).required.contains("exp"@),
        session_rules(audience).validate_exp,
{
}

/// Without an expected audience no audience is looked at; with one, it is the only one let
/// through.
pub proof fn law_audience_is_checked_when_set(audience: Option<Seq<char>>)
    ensures
        session_rules(audience).validate_aud <==> audience is Some,
        audience is Some ==> session_rules(audience).aud == Some(set![audience->Some_0]),
{
}

/// What a parsed JWK gives for its key.
pub uninterp spec fn key_params(jwk: Jwk) -> KeyParams;

/// What a key for checking signatures consists of.
pub uninterp spec fn key_parts(key: DecodingKey) -> KeyParts;

/// The checks that are set up.
pub uninterp spec fn rules(validation: Validation) -> Rules;

/// The keys of a JWKS document, or what is wrong with it.
pub uninterp spec fn key_set_params(doc: Json) -> Result<Seq<KeyParams>, Seq<char>>;

/// The key that parameters stand for, if they stand for one: each has to be base64url. The point
/// of a curve is its two coordinates behind the byte 4.
pub open spec fn made_key(params: KeyParams) -> Option<KeyParts> {
    match params {
        KeyParams::Rsa { n, e } => match (base64url_bytes(n), base64url_bytes(e)) {
            (Some(n), Some(e)) => Some(KeyParts { family: KeyFamily::Rsa, parts: seq![n, e] }),
            _ => None,
        },
        KeyParams::EllipticCurve { x, y } => match (base64url_bytes(x), base64url_bytes(y)) {
            (Some(x), Some(y)) => Some(
                KeyParts { family: KeyFamily::Ec, parts: seq![seq![4u8] + x + y] },
            ),
            _ => None,
        },
        KeyParams::OctetKeyPair { x } => match base64url_bytes(x) {
            Some(x) => Some(KeyParts { family: KeyFamily::Ed, parts: seq![x] }),
            None => None,
        },
        KeyParams::Octet { k } => match base64url_bytes(k) {
            Some(k) => Some(KeyParts { family: KeyFamily::Hmac, parts: seq![k] }),
            None => None,
        },
    }
}

/// How it is put in words that parameters stand for no key.
pub uninterp spec fn params_fault(params: KeyParams) -> Seq<char>;

/// The key that parameters stand for, or what is wrong with them.
pub open spec fn parts_from(params: KeyParams) -> Result<KeyParts, Seq<char>> {
    match made_key(params) {
        Some(parts) => Ok(parts),
        None => Err(params_fault(params)),
    }
}

/// The key ID in the header of `token`, if it has any, or what is wrong with the header.
pub uninterp spec fn token_key_id(token: Seq<char>) -> Result<Option<Seq<char>>, Seq<char>>;

/// What is wrong with a token.
pub struct Fault {
    /// How it is put in words.
    pub text: Seq<char>,
    /// Its header or its claims are not the JSON that they have to be.
    pub json: bool,
}

/// Why a token does not pass.
#[derive(Debug)]
pub(crate) struct Refusal {
    pub(crate) cause: jsonwebtoken::errors::Error,
    /// Its header or its claims are not the JSON that they have to be.
    pub(crate) json: bool,
}

/// Whether `token` passes the checks of `rules`, that of its signature with `key` among them,
/// when the clock stands at `now`, in seconds after the Unix epoch; else what is wrong with it.
pub uninterp spec fn token_verdict(
    token: Seq<char>,
    key: KeyParts,
    rules: Rules,
    now: int,
) -> Result<(), Fault>;

/// What stands against `token` being an RS256 token with a signature that is good for `key` and
/// with claims, if anything does. No clock is read for that, and a token whose header can be read
/// may have claims that are no JSON.
pub open spec fn signature_fault(token: Seq<char>, key: KeyParts) -> Option<Seq<char>> {
    match token_verdict(token, key, rs256_rules().signature_alone(), 0) {
        Ok(_) => None,
        Err(fault) => if fault.json && token_key_id(token) is Ok {
            None
        } else {
            Some(fault.text)
        },
    }
}

/// The payload of a token: what stands between its last two dots.
pub open spec fn payload_segment(token: Seq<char>) -> Option<Seq<char>> {
    let end = last_position(token, '.');
    let start = last_position(token.take(end), '.');
    if end >= 0 && start >= 0 {
        Some(token.subrange(start + 1, end))
    } else {
        None
    }
}

/// The claims of a token, as JSON text: the bytes that its payload stands for.
pub open spec fn token_payload(token: Seq<char>) -> Option<Seq<u8>> {
    match payload_segment(token) {
        Some(segment) => base64url_bytes(segment),
        None => None,
    }
}

/// The claims of a token as a document, where they are one.
pub open spec fn claims_document(token: Seq<char>) -> Option<Json> {
    match token_payload(token) {
        Some(text) => json_document(text),
        None => None,
    }
}

/// Two objects that differ in the member `aud` at most.
pub open spec fn differ_in_audience_alone(a: Json, b: Json) -> bool {
    a is Object && b is Object && a->Object_0.remove("aud"@) == b->Object_0.remove("aud"@)
}

/// Two tokens with good signatures whose claims differ in the audience at most.
pub open spec fn same_but_audience(
    token: Seq<char>,
    other: Seq<char>,
    key: KeyParts,
    rules: Rules,
) -> bool {
    &&& token_verdict(token, key, rules.signature_alone(), 0) is Ok
    &&& token_verdict(other, key, rules.signature_alone(), 0) is Ok
    &&& claims_document(token) is Some
    &&& claims_document(other) is Some
    &&& differ_in_audience_alone(claims_document(token)->Some_0, claims_document(other)->Some_0)
}

/// `r` is the verdict `verdict`: it is passed, or it is failed for that fault.
pub(crate) open spec fn tells(r: Result<(), Refusal>, verdict: Result<(), Fault>) -> bool {
    match verdict {
        Ok(_) => r is Ok,
        Err(fault) => {
            &&& r matches Err(refusal)
            &&& has_text(refusal.cause, fault.text)
            &&& refusal.json == fault.json
        },
    }
}

/// `r` is the verdict on `token` when the clock stands at `now`. Where no audience is looked at,
/// it is the same for any token that differs in nothing but its audience.
pub(crate) open spec fn validates_at(
    r: Result<(), Refusal>,
    token: Seq<char>,
    key: KeyParts,
    rules: Rules,
    now: int,
) -> bool {
    &&& tells(r, token_verdict(token, key, rules, now))
    &&& !rules.validate_aud ==> forall|other: Seq<char>| #[trigger]
        same_but_audience(token, other, key, rules) ==> tells(
            r,
            token_verdict(other, key, rules, now),
        )
}

/// `jsonwebtoken::decode_header`, of which the key ID is taken: an error exactly when the header
/// cannot be read, with the text of what is wrong with it.
#[verifier::external_body]
pub(crate) fn read_token_key_id(token: &str) -> (r: Result<
    Option<String>,
    jsonwebtoken::errors::Error,
>)
    ensures
        match token_key_id(token@) {
            Ok(kid) => r is Ok && string_chars(r->Ok_0) == kid,
            Err(text) => r is Err && has_text(r->Err_0, text),
        },
{
    jsonwebtoken::decode_header(token).map(|header| header.kid)
}

/// `serde_json::from_value` into a `JwkSet`: the keys of the document, or the text of what is
/// wrong with it.
#[verifier::external_body]
fn parse_key_set(doc: Value) -> (r: Result<Vec<Jwk>, String>)
    ensures
        match r {
            Ok(keys) => key_set_params(json(doc)) == Ok::<Seq<KeyParams>, Seq<char>>(
                keys@.map_values(|key: Jwk| key_params(key)),
            ),
            Err(text) => key_set_params(json(doc)) == Err::<Seq<KeyParams>, Seq<char>>(text@),
        },
{
    let set: Result<JwkSet, serde_json::Error> = serde_json::from_value(doc);
    set.map(|set| set.keys).map_err(|e| e.to_string())
}

/// `DecodingKey::from_jwk`: the key that the parameters of `jwk` stand for, or the text of what
/// is wrong with them, exactly when one of them is not base64url.
#[verifier::external_body]
fn key_from_jwk(jwk: &Jwk) -> (r: Result<DecodingKey, String>)
    ensures
        match r {
            Ok(key) => made_key(key_params(*jwk)) == Some(key_parts(key)),
            Err(text) => made_key(key_params(*jwk)) is None && text@ == params_fault(
                key_params(*jwk),
            ),
        },
{
    DecodingKey::from_jwk(jwk).map_err(|e| e.to_string())
}

/// `Validation::new` for RS256.
#[verifier::external_body]
fn rs256_validation() -> (r: Validation)
    ensures
        rules(r) == rs256_rules(),
{
    Validation::new(Algorithm::RS256)
}

/// `Validation::set_audience` with one audience: it becomes the only one, and nothing else
/// changes.
#[verifier::external_body]
fn set_audience(validation: &mut Validation, audience: &str)
    ensures
        rules(*final(validation)) == (Rules {
            aud: Some(set![audience@]),
            ..rules(*old(validation))
        }),
{
    validation.set_audience(&[audience])
}

/// The field `Validation::validate_exp`.
#[verifier::external_body]
fn set_validate_exp(validation: &mut Validation, on: bool)
    ensures
        rules(*final(validation)) == (Rules { validate_exp: on, ..rules(*old(validation)) }),
{
    validation.validate_exp = on;
}

/// The field `Validation::validate_aud`.
#[verifier::external_body]
fn set_validate_aud(validation: &mut Validation, on: bool)
    ensures
        rules(*final(validation)) == (Rules { validate_aud: on, ..rules(*old(validation)) }),
{
    validation.validate_aud = on;
}

/// The field `Validation::required_spec_claims`, emptied.
#[verifier::external_body]
fn require_nothing(validation: &mut Validation)
    ensures
        rules(*final(validation)) == (Rules { required: Set::empty(), ..rules(*old(validation)) }),
{
    validation.required_spec_claims = HashSet::new();
}

/// `jsonwebtoken::decode`, with no look at what the claims say: whether the token passes the
/// checks, and the text of what is wrong with it where it does not.
///
/// Only the checks of `exp` and `nbf` read the clock, at some moment during the call; it has to
/// stand later than one minute after the Unix epoch. The signature is checked first, and the
/// payload has to be base64 and JSON: where that fails, it fails in the same way with the checks
/// of the claims left out, and where all passes, it passes without them too. A header that can be
/// read is JSON: what is no JSON then are the claims, which stand behind the signature and the
/// base64. The check of the audience is the only one that reads the claim `aud`.
#[verifier::external_body]
fn validate_token(token: &str, key: &DecodingKey, validation: &Validation) -> (r: Result<
    (),
    Refusal,
>)
    requires
        rules(*validation).required.subset_of(set!["exp"@]),
        rules(*validation).leeway <= 60,
        rules(*validation).margin == 0,
    ensures
        exists|now: int| #[trigger]
            validates_at(r, token@, key_parts(*key), rules(*validation), now),
        !rules(*validation).read_the_clock() ==> forall|now: int|
            tells(r, #[trigger] token_verdict(token@, key_parts(*key), rules(*validation), now)),
        r is Ok ==> token_payload(token@) is Some,
        r is Err && r->Err_0.json && token_key_id(token@) is Ok ==> token_payload(token@) is Some,
        r is Ok ==> forall|now: int|
            (#[trigger] token_verdict(
                token@,
                key_parts(*key),
                rules(*validation).signature_alone(),
                now,
            )) is Ok,
        forall|now: int|
            (#[trigger] token_verdict(
                token@,
                key_parts(*key),
                rules(*validation).signature_alone(),
                now,
            )) is Err ==> tells(
                r,
                token_verdict(
                    token@,
                    key_parts(*key),
                    rules(*validation).signature_alone(),
                    now,
                ),
            ),
{
    let r = jsonwebtoken::decode::<IgnoredAny>(token, key, validation);
    r.map(drop).map_err(|e| Refusal { json: matches!(e.kind(), ErrorKind::Json(_)), cause: e })
}

/// The JWKS document whose only key is `jwk`.
pub open spec fn sole_key_document(jwk: Json) -> Json {
    Json::Object(map!["keys"@ => Json::Array(seq![jwk])])
}

/// The key that a JWK stands for, or what is wrong with it.
pub open spec fn verification_key(jwk: Json) -> Result<KeyParts, Seq<char>> {
    match key_set_params(sole_key_document(jwk)) {
        Ok(keys) => if keys.len() > 0 {
            parts_from(keys[0])
        } else {
            Err("empty JwkSet"@)
        },
        Err(text) => Err(text),
    }
}

/// A JWK that can be read, and whose parameters stand for no key.
pub open spec fn has_bad_params(jwk: Json) -> bool {
    key_set_params(sole_key_document(jwk)) matches Ok(keys) && keys.len() > 0 && made_key(keys[0])
        is None
}

/// An RSA key whose modulus or exponent is not base64url is refused.
pub proof fn law_rsa_key_has_to_be_base64url(jwk: Json, keys: Seq<KeyParams>)
    requires
        key_set_params(sole_key_document(jwk)) == Ok::<Seq<KeyParams>, Seq<char>>(keys),
        keys.len() > 0,
        keys[0] is Rsa,
        base64url_bytes(keys[0]->n) is None || base64url_bytes(keys[0]->e) is None,
    ensures
        verification_key(jwk) is Err,
        has_bad_params(jwk),
{
}

/// Why a JWK gives no key.
#[derive(Debug)]
pub enum KeyFault {
    /// It is not the JSON of a JWK.
    Jwk(String),
    /// Its parameters stand for no key.
    Params(String),
}

/// Makes the key that a JWK stands for, and tells a JWK that cannot be read from one whose
/// parameters stand for no key.
pub fn make_key(jwk: &Value) -> (r: Result<DecodingKey, KeyFault>)
    ensures
        match verification_key(json(*jwk)) {
            Ok(parts) => r matches Ok(key) && key_parts(key) == parts,
            Err(lack) => if has_bad_params(json(*jwk)) {
                r matches Err(KeyFault::Params(text)) && text@ == lack
            } else {
                r matches Err(KeyFault::Jwk(text)) && text@ == lack
            },
        },
{
    let document: Value = object_of("keys", array_of(copy(jwk)));
    let keys: Vec<Jwk> = match parse_key_set(document) {
        Ok(keys) => keys,
        Err(text) => return Err(KeyFault::Jwk(text)),
    };
    if keys.len() == 0 {
        return Err(KeyFault::Jwk("empty JwkSet".to_owned()));
    }
    match key_from_jwk(&keys[0]) {
        Ok(key) => Ok(key),
        Err(text) => Err(KeyFault::Params(text)),
    }
}

/// Makes the key that a JWK stands for.
pub fn decoding_key_from_jwk(jwk: &Value) -> (r: Result<DecodingKey, ClerkError>)
    ensures
        match verification_key(json(*jwk)) {
            Ok(parts) => r matches Ok(key) && key_parts(key) == parts,
            Err(lack) => r matches Err(ClerkError::JwksParse(text)) && text@ == lack,
        },
{
    match make_key(jwk) {
        Ok(key) => Ok(key),
        Err(KeyFault::Jwk(text)) => Err(ClerkError::JwksParse(text)),
        Err(KeyFault::Params(text)) => Err(ClerkError::JwksParse(text)),
    }
}

/// Sets up the checks that a session token has to pass.
pub fn session_validation(config: &ClerkConfig) -> (r: Validation)
    ensures
        rules(r) == session_rules(string_chars(config.audience)),
{
    let mut validation: Validation = rs256_validation();
    set_validate_exp(&mut validation, true);
    match &config.audience {
        Some(audience) => set_audience(&mut validation, audience.as_str()),
        None => set_validate_aud(&mut validation, false),
    }
    validation
}

/// Sets up the check of the signature alone.
fn signature_validation() -> (r: Validation)
    ensures
        rules(r) == rs256_rules().signature_alone(),
{
    let mut validation: Validation = rs256_validation();
    set_validate_exp(&mut validation, false);
    set_validate_aud(&mut validation, false);
    require_nothing(&mut validation);
    validation
}

/// Reads the claims of a token out of its payload.
fn read_payload(token: &str) -> (r: Vec<u8>)
    requires
        token_payload(token@) is Some,
    ensures
        token_payload(token@) == Some(r@),
{
    let whole: Vec<char> = chars(token);
    assert(token@.take(whole@.len() as int) =~= token@);
    let end: usize = find_last(&whole, whole.len(), '.').unwrap();
    let start: usize = find_last(&whole, end, '.').unwrap();
    decode_base64url(token.substring_char(start + 1, end)).unwrap()
}

/// A token whose signature is good.
#[derive(Debug)]
pub struct SignedClaims {
    /// Its claims, as JSON text.
    pub claims: Vec<u8>,
    /// Why the claims do not pass, if they do not.
    pub rejection: Option<jsonwebtoken::errors::Error>,
}

/// What is known of a token that did not pass the checks, for the reason `reason`, once its
/// signature has been checked alone.
///
/// A token with a good signature has claims, which are rejected. For any other the reason is why
/// it is not valid.
pub fn reject_claims(
    reason: jsonwebtoken::errors::Error,
    signed: Result<Vec<u8>, jsonwebtoken::errors::Error>,
) -> (r: Result<SignedClaims, ClerkError>)
    ensures
        match signed {
            Ok(claims) => r == Ok::<SignedClaims, ClerkError>(
                SignedClaims { claims, rejection: Some(reason) },
            ),
            Err(_) => r == Err::<SignedClaims, ClerkError>(ClerkError::Jwt(reason)),
        },
{
    match signed {
        Ok(claims) => Ok(SignedClaims { claims, rejection: Some(reason) }),
        Err(_) => Err(ClerkError::Jwt(reason)),
    }
}

/// The verdict on a session token for `audience` when the clock stands at `now`.
pub open spec fn session_verdict(
    token: Seq<char>,
    key: KeyParts,
    audience: Option<Seq<char>>,
    now: int,
) -> Result<(), Fault> {
    token_verdict(token, key, session_rules(audience), now)
}

/// `rejection` is what `verdict` finds wrong, if anything.
pub open spec fn rejects(
    rejection: Option<jsonwebtoken::errors::Error>,
    verdict: Result<(), Fault>,
) -> bool {
    match verdict {
        Ok(_) => rejection is None,
        Err(fault) => rejection is Some && has_text(rejection->Some_0, fault.text),
    }
}

/// `rejection` is what is wrong with the claims of a session token for `audience` when the clock
/// stands at `now`, if anything is. Without an audience that is expected, it is what is wrong with
/// any token that differs in nothing but its audience.
pub open spec fn judges_at(
    rejection: Option<jsonwebtoken::errors::Error>,
    token: Seq<char>,
    key: KeyParts,
    audience: Option<Seq<char>>,
    now: int,
) -> bool {
    &&& rejects(rejection, session_verdict(token, key, audience, now))
    &&& audience is None ==> forall|other: Seq<char>| #[trigger]
        same_but_audience(token, other, key, rs256_rules()) ==> rejects(
            rejection,
            session_verdict(other, key, audience, now),
        )
}

/// Checks the signature of `token` and its claims.
///
/// Fails exactly when the signature is not good for `key`, or there are no claims. The claims are
/// rejected exactly when they do not pass the checks, at some reading of the clock.
pub fn check_claims(token: &str, key: &DecodingKey, config: &ClerkConfig) -> (r: Result<
    SignedClaims,
    ClerkError,
>)
    ensures
        match signature_fault(token@, key_parts(*key)) {
            Some(text) => r matches Err(ClerkError::Jwt(e)) && has_text(e, text),
            None => {
                &&& r matches Ok(signed)
                &&& token_payload(token@) == Some(signed.claims@)
                &&& exists|now: int| #[trigger]
                    judges_at(
                        signed.rejection,
                        token@,
                        key_parts(*key),
                        string_chars(config.audience),
                        now,
                    )
            },
        },
{
    let ghost parts = key_parts(*key);
    let ghost audience = string_chars(config.audience);
    let validation: Validation = session_validation(config);
    assert(rules(validation).signature_alone() =~= rs256_rules().signature_alone());
    let strict: Result<(), Refusal> = validate_token(token, key, &validation);
    let ghost now = choose|now: int| #[trigger]
        validates_at(strict, token@, parts, rules(validation), now);
    assert(validates_at(strict, token@, parts, rules(validation), now));
    match strict {
        Ok(()) => {
            assert(signature_fault(token@, parts) is None);
            let none: Option<jsonwebtoken::errors::Error> = None;
            proof {
                lemma_judges_at(strict, none, token@, parts, audience, now);
            }
            Ok(SignedClaims { claims: read_payload(token), rejection: none })
        },
        Err(refusal) => {
            let relaxed: Validation = signature_validation();
            assert(rules(relaxed).signature_alone() =~= rules(relaxed));
            let signed: Result<Vec<u8>, jsonwebtoken::errors::Error> = match validate_token(
                token,
                key,
                &relaxed,
            ) {
                Ok(()) => Ok(read_payload(token)),
                Err(other) => if other.json && read_token_key_id(token).is_ok() {
                    Ok(read_payload(token))
                } else {
                    Err(other.cause)
                },
            };
            proof {
                lemma_judges_at(strict, Some(refusal.cause), token@, parts, audience, now);
            }
            reject_claims(refusal.cause, signed)
        },
    }
}

/// A verdict on a session token is what its claims are judged by.
proof fn lemma_judges_at(
    r: Result<(), Refusal>,
    rejection: Option<jsonwebtoken::errors::Error>,
    token: Seq<char>,
    key: KeyParts,
    audience: Option<Seq<char>>,
    now: int,
)
    requires
        validates_at(r, token, key, session_rules(audience), now),
        rejection is None <==> r is Ok,
        r is Err ==> rejection == Some(r->Err_0.cause),
    ensures
        judges_at(rejection, token, key, audience, now),
{
    if audience is None {
        assert(session_rules(audience).signature_alone() =~= rs256_rules().signature_alone());
        assert forall|other: Seq<char>| #[trigger]
            same_but_audience(token, other, key, rs256_rules()) implies rejects(
            rejection,
            session_verdict(other, key, audience, now),
        ) by {
            assert(same_but_audience(token, other, key, session_rules(audience)));
        }
    }
}

/// Without an expected audience the audience of a token makes no difference: of two tokens with
/// good signatures for the same key whose claims differ in `aud` at most, the claims of one pass
/// exactly when those of the other do, at the same time, and what is wrong with them is the same.
pub proof fn law_audience_makes_no_difference_unless_expected(
    token: Seq<char>,
    other: Seq<char>,
    key: KeyParts,
    now: int,
    rejection: Option<jsonwebtoken::errors::Error>,
    other_rejection: Option<jsonwebtoken::errors::Error>,
)
    requires
        same_but_audience(token, other, key, rs256_rules()),
        judges_at(rejection, token, key, None, now),
        judges_at(other_rejection, other, key, None, now),
    ensures
        rejection is None <==> other_rejection is None,
        rejection is Some ==> exists|text: Seq<char>|
            #![trigger has_text(rejection->Some_0, text)]
            has_text(rejection->Some_0, text) && has_text(other_rejection->Some_0, text),
{
    let verdict = session_verdict(other, key, None, now);
    if rejection is Some {
        assert(has_text(rejection->Some_0, verdict->Err_0.text));
    }
}

/// The claims of a token are what stands between its last two dots, all of it, in base64url. What
/// has no two dots has no claims.
pub proof fn law_claims_stand_between_the_last_dots(
    header: Seq<char>,
    payload: Seq<char>,
    signature: Seq<char>,
)
    requires
        !payload.contains('.'),
        !signature.contains('.'),
    ensures
        token_payload(header.push('.') + payload.push('.') + signature) == base64url_bytes(payload),
        token_payload(payload.push('.') + signature) is None,
        token_payload(signature) is None,
{
    let token = header.push('.') + payload.push('.') + signature;
    let first = header.len() as int;
    let second = first + 1 + payload.len();
    law_last_position_is_the_last(token, '.');
    assert(token[second] == '.');
    assert forall|k: int| second < k < token.len() implies token[k] != '.' by {
        assert(token[k] == signature[k - second - 1]);
        assert(signature.contains(signature[k - second - 1]));
    }
    assert(last_position(token, '.') == second);
    let front = token.take(second);
    law_last_position_is_the_last(front, '.');
    assert(front[header.len() as int] == '.');
    assert forall|k: int| header.len() < k < second implies front[k] != '.' by {
        assert(front[k] == payload[k - header.len() - 1]);
        assert(payload.contains(payload[k - header.len() - 1]));
    }
    assert(last_position(front, '.') == header.len());
    assert(token.subrange(first + 1, second) =~= payload);

    let short = payload.push('.') + signature;
    law_last_position_is_the_last(short, '.');
    assert(short[payload.len() as int] == '.');
    assert forall|k: int| payload.len() < k < short.len() implies short[k] != '.' by {
        assert(short[k] == signature[k - payload.len() - 1]);
        assert(signature.contains(signature[k - payload.len() - 1]));
    }
    assert(last_position(short, '.') == payload.len());
    let rest = short.take(payload.len() as int);
    assert(rest =~= payload);
    law_last_position_is_the_last(payload, '.');
    if last_position(payload, '.') >= 0 {
        assert(payload.contains(payload[last_position(payload, '.')]));
    }
    law_last_position_is_the_last(signature, '.');
    if last_position(signature, '.') >= 0 {
        assert(signature.contains(signature[last_position(signature, '.')]));
    }
}

/// An RSA key consists of the whole of its modulus and its exponent, out of base64url, and a JWK
/// that gives no such parameters gives no key. What is wrong with it is told as it was found.
pub proof fn law_key_is_made_of_its_parameters(
    jwk: &Value,
    r: Result<DecodingKey, KeyFault>,
    plain: Result<DecodingKey, ClerkError>,
)
    requires
        call_ensures(make_key, (jwk,), r),
        call_ensures(decoding_key_from_jwk, (jwk,), plain),
    ensures
        ({
            let read = key_set_params(
                Json::Object(map!["keys"@ => Json::Array(seq![json(*jwk)])]),
            );
            &&& read matches Err(text) ==> r is Err && r->Err_0 is Jwk && r->Err_0->Jwk_0@ == text
            &&& read matches Ok(keys) ==> (keys.len() == 0 ==> r is Err && r->Err_0 is Jwk)
            &&& read matches Ok(keys) ==> (keys.len() > 0 && made_key(keys[0]) is None ==> r is Err
                && r->Err_0 is Params)
            &&& read matches Ok(keys) ==> (keys.len() > 0 && made_key(keys[0]) is Some ==> r is Ok
                && Some(key_parts(r->Ok_0)) == made_key(keys[0]))
            &&& read matches Ok(keys) ==> (keys.len() > 0 ==> (keys[0] matches KeyParams::Rsa {
                n,
                e,
            } ==> (r is Ok <==> base64url_bytes(n) is Some && base64url_bytes(e) is Some) && (r
                is Ok ==> key_parts(r->Ok_0).family is Rsa && key_parts(r->Ok_0).parts == seq![
                base64url_bytes(n)->Some_0,
                base64url_bytes(e)->Some_0,
            ])))
        }),
        r matches Ok(key) ==> plain is Ok && key_parts(plain->Ok_0) == key_parts(key),
        r matches Err(KeyFault::Jwk(text)) ==> plain is Err && plain->Err_0 is JwksParse
            && plain->Err_0->JwksParse_0@ == text@,
        r matches Err(KeyFault::Params(text)) ==> plain is Err && plain->Err_0 is JwksParse
            && plain->Err_0->JwksParse_0@ == text@,
{
}

/// The checks of a session token for `audience`: those that come with RS256, and of the audience,
/// that it is `audience`, or nothing.
pub open spec fn wanted_rules(audience: Option<String>) -> Rules {
    match audience {
        Some(name) => Rules { aud: Some(set![name@]), validate_aud: true, ..rs256_rules() },
        None => Rules { aud: None, validate_aud: false, ..rs256_rules() },
    }
}

/// A session token has to be signed in RS256 and to say when it expires, is held to that within a
/// minute, and has to be for the audience that is configured, by its whole name, where one is;
/// nothing else is asked of it.
pub proof fn law_session_checks_are_those_of_the_config(config: &ClerkConfig, r: Validation)
    requires
        call_ensures(session_validation, (config,), r),
    ensures
        rules(r).validate_signature,
        rules(r).algorithms == seq!["RS256"@],
        rules(r).required == set!["exp"@],
        rules(r).leeway == 60 && rules(r).margin == 0,
        rules(r).validate_exp && !rules(r).validate_nbf,
        rules(r).iss is None && rules(r).sub is None,
        match config.audience {
            Some(name) => rules(r).validate_aud && rules(r).aud == Some(set![name@]),
            None => !rules(r).validate_aud && rules(r).aud is None,
        },
        rules(r) == wanted_rules(config.audience),
{
    assert(rules(r) =~= wanted_rules(config.audience));
}

/// A token is accepted only if it passes every check at a reading of the clock, and rejected only
/// for what one finds wrong. One that passes them at every reading is accepted. One whose
/// signature, or what comes before it, is at fault is refused for that fault.
pub proof fn law_accepted_token_passes_every_check(
    token: &str,
    key: &DecodingKey,
    config: &ClerkConfig,
    r: Result<SignedClaims, ClerkError>,
)
    requires
        call_ensures(check_claims, (token, key, config), r),
    ensures
        r matches Ok(signed) ==> token_payload(token@) == Some(signed.claims@),
        r matches Ok(signed) ==> (signed.rejection is None ==> exists|now: int|
            (#[trigger] token_verdict(
                token@,
                key_parts(*key),
                wanted_rules(config.audience),
                now,
            )) is Ok),
        r matches Ok(signed) ==> (signed.rejection matches Some(e) ==> exists|now: int|
            (#[trigger] token_verdict(
                token@,
                key_parts(*key),
                wanted_rules(config.audience),
                now,
            )) is Err && has_text(
                e,
                token_verdict(
                    token@,
                    key_parts(*key),
                    wanted_rules(config.audience),
                    now,
                )->Err_0.text,
            )),
        (forall|now: int|
            (#[trigger] token_verdict(
                token@,
                key_parts(*key),
                wanted_rules(config.audience),
                now,
            )) is Ok) && r is Ok ==> r->Ok_0.rejection is None,
        ({
            let alone = token_verdict(
                token@,
                key_parts(*key),
                rs256_rules().signature_alone(),
                0,
            );
            &&& alone is Ok ==> r is Ok
            &&& alone matches Err(fault) ==> (!fault.json || token_key_id(token@) is Err ==> r is Err)
            &&& alone matches Err(fault) ==> (fault.json && token_key_id(token@) is Ok ==> r is Ok)
            &&& r matches Err(e) ==> e is Jwt && alone is Err && has_text(
                e->Jwt_0,
                alone->Err_0.text,
            )
        }),
{
    let audience = string_chars(config.audience);
    assert(session_rules(audience) =~= wanted_rules(config.audience));
    if r is Ok {
        let now = choose|now: int| #[trigger]
            judges_at(r->Ok_0.rejection, token@, key_parts(*key), audience, now);
        assert(judges_at(r->Ok_0.rejection, token@, key_parts(*key), audience, now));
        let verdict = token_verdict(
            token@,
            key_parts(*key),
            wanted_rules(config.audience),
            now,
        );
        assert(verdict == session_verdict(token@, key_parts(*key), audience, now));
    }
}

} // verus!
