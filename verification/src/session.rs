//! Verification of session tokens, step by step.
//!
//! A token goes from [`PendingToken`], which knows what key it asks for, through
//! [`PendingToken::with_cache`], which checks it with the keys that the cache serves for it, and
//! [`PendingToken::with_refreshed`] where they have to be fetched, to [`CheckedToken::conclude`],
//! which takes the claims once they are parsed. Fetching lies with the caller, and so does
//! parsing.

use crate::cache::{
    gives_keys, law_held_keys_have_a_fetch_time, law_served_keys_hold_the_named_key,
    refreshed_at, servable, set_keys, well_filed, ClerkJwksCache,
};
use crate::claims::{ClerkClaims, ClerkConfig};
use crate::clock::span_nanos;
use crate::error::{has_text, ClerkError};
use crate::json::Json;
use crate::jwks::{knows, selected, KeySet};
use crate::jwt::{
    check_claims, has_bad_params, judges_at, key_set_params, made_key, make_key, params_fault,
    read_token_key_id, rs256_rules, session_rules, session_verdict, signature_fault, token_key_id,
    token_payload, token_verdict, verification_key, wanted_rules, KeyFault, KeyParams, KeyParts,
    Rules, SignedClaims,
};
use crate::text::{
    law_prefix_comes_off_as_it_went_on, str_chars, string_chars, strip_prefix, stripped,
};
use axum::http::{header, HeaderMap, HeaderValue};
use jsonwebtoken::DecodingKey;
use serde_json::Value;
use std::sync::Arc;
use std::time::Instant;
use vstd::prelude::*;
use vstd::string::to_string_from_display_ensures;

verus! {

/// The headers of a request.
#[verifier::external_type_specification]
#[verifier::external_body]
#[verifier::reject_recursive_types(T)]
pub struct ExHeaderMap<T>(HeaderMap<T>);

/// The value of a header.
#[verifier::external_type_specification]
#[verifier::external_body]
pub struct ExHeaderValue(HeaderValue);

/// The values of each header that a request has, by the lower-case name of the header, in order.
pub uninterp spec fn header_values(headers: HeaderMap<HeaderValue>) -> Map<
    Seq<char>,
    Seq<Seq<u8>>,
>;

/// The bytes of a header value.
pub uninterp spec fn value_bytes(value: HeaderValue) -> Seq<u8>;

/// A visible ASCII character, a space or a tab.
pub open spec fn is_visible(b: u8) -> bool {
    32 <= b < 127 || b == 9
}

/// The text of a header value, where it has nothing but visible ASCII characters.
pub open spec fn header_text(bytes: Seq<u8>) -> Option<Seq<char>> {
    if forall|i: int| 0 <= i < bytes.len() ==> is_visible(#[trigger] bytes[i]) {
        Some(bytes.map_values(|b: u8| b as char))
    } else {
        None
    }
}

/// `HeaderMap::get` for the header `Authorization`: its first value, if the request has the
/// header.
#[verifier::external_body]
fn authorization(headers: &HeaderMap) -> (r: Option<&HeaderValue>)
    ensures
        r is Some <==> header_values(*headers).contains_key("authorization"@),
        r matches Some(value) ==> value_bytes(*value) == header_values(
            *headers,
        )["authorization"@][0],
{
    headers.get(header::AUTHORIZATION)
}

/// `HeaderValue::to_str`: the text of a value that has nothing but visible ASCII characters.
#[verifier::external_body]
fn text_of(value: &HeaderValue) -> (r: Option<&str>)
    ensures
        match r {
            Some(text) => header_text(value_bytes(*value)) == Some(text@),
            None => header_text(value_bytes(*value)) is None,
        },
{
    value.to_str().ok()
}

/// The token that a request bears: what follows `Bearer ` in its `Authorization` header.
pub open spec fn bearer_token(headers: Map<Seq<char>, Seq<Seq<u8>>>) -> Option<Seq<char>> {
    if headers.contains_key("authorization"@) {
        match header_text(headers["authorization"@][0]) {
            Some(text) => stripped(text, "Bearer "@),
            None => None,
        }
    } else {
        None
    }
}

/// Extracts the Bearer token from `Authorization: Bearer <token>`.
pub fn extract_access_token(headers: &HeaderMap) -> (r: Option<String>)
    ensures
        string_chars(r) == bearer_token(header_values(*headers)),
{
    match authorization(headers) {
        Some(value) => match text_of(value) {
            Some(text) => match strip_prefix(text, "Bearer ") {
                Some(token) => Some(token.to_owned()),
                None => None,
            },
            None => None,
        },
        None => None,
    }
}

/// `r` is what comes of checking `token` with the published keys `keys`: the key for its key ID
/// is selected and made, and its signature and its claims are checked with that key.
///
/// The claims are rejected exactly when they do not pass, at some reading of the clock.
pub open spec fn checks_to(
    r: Result<CheckedToken, ClerkError>,
    token: Seq<char>,
    keys: Seq<(Seq<char>, Json)>,
    audience: Option<Seq<char>>,
) -> bool {
    match selected(keys, token_key_id(token)->Ok_0) {
        None => r matches Err(ClerkError::KeyNotFound(kid)) && string_chars(kid) == token_key_id(
            token,
        )->Ok_0,
        Some(jwk) => match verification_key(jwk) {
            Err(lack) => r matches Err(ClerkError::JwksParse(text)) && text@ == lack,
            Ok(key) => match signature_fault(token, key) {
                Some(text) => r matches Err(ClerkError::Jwt(e)) && has_text(e, text),
                None => {
                    &&& r matches Ok(checked)
                    &&& token_payload(token) == Some(checked.claims())
                    &&& exists|now: int| #[trigger]
                        judges_at(checked.rejection(), token, key, audience, now)
                },
            },
        },
    }
}

/// `r` is what comes of reading the header of `token`.
pub open spec fn opens_to(r: Result<PendingToken, ClerkError>, token: Seq<char>) -> bool {
    match token_key_id(token) {
        Ok(_) => r matches Ok(pending) && pending.token() == token,
        Err(text) => r matches Err(ClerkError::Jwt(e)) && has_text(e, text),
    }
}

/// What is to be done next about a token.
#[derive(Debug)]
pub enum Step {
    /// Request the JWKS endpoint, and go on with [`PendingToken::with_refreshed`].
    Fetch(PendingToken),
    /// Parse the claims, and go on with [`CheckedToken::conclude`].
    Parse(CheckedToken),
    /// Nothing: the token is refused.
    Refuse(ClerkError),
    /// Warn of the key that the token asks for, whose parameters stand for no key: the token is
    /// refused.
    RefuseKey(ClerkError),
}

impl Step {
    /// This step follows from the check that came to `r`; `bad_params` tells that the parameters
    /// of the key stood for none.
    pub open spec fn follows(self, r: Result<CheckedToken, ClerkError>, bad_params: bool) -> bool {
        match r {
            Ok(checked) => self == Step::Parse(checked),
            Err(e) => if bad_params {
                self == Step::RefuseKey(e)
            } else {
                self == Step::Refuse(e)
            },
        }
    }
}

/// The published key for `token` can be read, and its parameters stand for no key.
pub open spec fn asks_for_bad_params(token: Seq<char>, keys: Seq<(Seq<char>, Json)>) -> bool {
    selected(keys, token_key_id(token)->Ok_0) matches Some(jwk) && has_bad_params(jwk)
}

/// `step` follows from checking `token` with the published keys `keys`.
pub open spec fn steps_to(
    step: Step,
    token: Seq<char>,
    keys: Seq<(Seq<char>, Json)>,
    audience: Option<Seq<char>>,
) -> bool {
    exists|r: Result<CheckedToken, ClerkError>| #[trigger]
        checks_to(r, token, keys, audience) && step.follows(r, asks_for_bad_params(token, keys))
}

/// `step` is the first one for `pending`, with what `cache` serves at `now` for the key ID in the
/// header of the token: where that is nothing, the keys have to be fetched.
pub open spec fn starts_at(
    step: Step,
    pending: PendingToken,
    cache: ClerkJwksCache,
    now: Instant,
    audience: Option<Seq<char>>,
) -> bool {
    match cache.serves(token_key_id(pending.token())->Ok_0, now) {
        None => step == Step::Fetch(pending),
        Some(keys) => steps_to(step, pending.token(), keys, audience),
    }
}

/// `step` is the first one for `pending`, with the keys that the cache served, if it served any.
pub open spec fn resumes(
    step: Step,
    pending: PendingToken,
    served: Option<Arc<KeySet>>,
    audience: Option<Seq<char>>,
) -> bool {
    match served {
        None => step == Step::Fetch(pending),
        Some(keys) => steps_to(step, pending.token(), keys@, audience),
    }
}

/// Why a token is refused, and whether that is for the parameters of its key.
struct Refused {
    error: ClerkError,
    bad_params: bool,
}

/// A token that waits for the published keys.
#[derive(Debug)]
pub struct PendingToken {
    token: String,
    kid: Option<String>,
}

impl PendingToken {
    /// The key ID is that in the header of the token.
    #[verifier::type_invariant]
    spec fn well_formed(self) -> bool {
        token_key_id(self.token@) == Ok::<Option<Seq<char>>, Seq<char>>(string_chars(self.kid))
    }

    /// The token.
    pub closed spec fn token(self) -> Seq<char> {
        self.token@
    }

    /// Reads the header of `token`.
    pub fn open(token: &str) -> (r: Result<PendingToken, ClerkError>)
        ensures
            opens_to(r, token@),
    {
        match read_token_key_id(token) {
            Ok(kid) => Ok(PendingToken { token: token.to_owned(), kid }),
            Err(e) => Err(ClerkError::Jwt(e)),
        }
    }

    /// The ID of the key that the token asks for.
    pub fn kid(&self) -> (r: Option<&str>)
        ensures
            token_key_id(self.token()) == Ok::<Option<Seq<char>>, Seq<char>>(str_chars(r)),
    {
        proof {
            use_type_invariant(&*self);
        }
        match &self.kid {
            Some(kid) => Some(kid.as_str()),
            None => None,
        }
    }

    /// Checks the token with the published keys, and tells whether a refusal is for the
    /// parameters of its key.
    fn examine(&self, keys: &KeySet, config: &ClerkConfig) -> (r: Result<CheckedToken, Refused>)
        ensures
            match r {
                Ok(checked) => checks_to(
                    Ok(checked),
                    self.token(),
                    keys@,
                    string_chars(config.audience),
                ),
                Err(refused) => {
                    &&& checks_to(
                        Err(refused.error),
                        self.token(),
                        keys@,
                        string_chars(config.audience),
                    )
                    &&& refused.bad_params == asks_for_bad_params(self.token(), keys@)
                },
            },
    {
        let jwk: &Value = match keys.select(self.kid()) {
            Ok(jwk) => jwk,
            Err(error) => return Err(Refused { error, bad_params: false }),
        };
        let key: DecodingKey = match make_key(jwk) {
            Ok(key) => key,
            Err(KeyFault::Jwk(text)) => {
                return Err(Refused { error: ClerkError::JwksParse(text), bad_params: false });
            },
            Err(KeyFault::Params(text)) => {
                return Err(Refused { error: ClerkError::JwksParse(text), bad_params: true });
            },
        };
        match check_claims(self.token.as_str(), &key, config) {
            Ok(signed) => Ok(CheckedToken { signed }),
            Err(error) => Err(Refused { error, bad_params: false }),
        }
    }

    /// Checks the token with the published keys.
    ///
    /// Fails when there is no key, when the key is not usable, and when the signature is not
    /// good for it.
    pub fn check(&self, keys: &KeySet, config: &ClerkConfig) -> (r: Result<
        CheckedToken,
        ClerkError,
    >)
        ensures
            checks_to(r, self.token(), keys@, string_chars(config.audience)),
    {
        match self.examine(keys, config) {
            Ok(checked) => Ok(checked),
            Err(refused) => Err(refused.error),
        }
    }

    /// Starts with the keys that the cache serves for the token at `now`.
    ///
    /// Where it serves none, they have to be fetched.
    pub fn with_cache_at(self, cache: &ClerkJwksCache, now: Instant, config: &ClerkConfig) -> (step:
        Step)
        ensures
            starts_at(step, self, *cache, now, string_chars(config.audience)),
    {
        match cache.lookup_at(self.kid(), now) {
            Some(keys) => self.with_refreshed(Ok(keys), config),
            None => Step::Fetch(self),
        }
    }

    /// Starts with the keys that the cache serves for the token.
    ///
    /// This is [`PendingToken::with_cache_at`] for a reading that `Instant::now` gave, with what
    /// [`ClerkJwksCache::lookup`] serves for the key ID of the token.
    pub fn with_cache(self, cache: &ClerkJwksCache, config: &ClerkConfig) -> (step: Step)
        ensures
            exists|now: Instant|
                call_ensures(Instant::now, (), now) && #[trigger] starts_at(
                    step,
                    self,
                    *cache,
                    now,
                    string_chars(config.audience),
                ),
            exists|kid: Option<&str>, served: Option<Arc<KeySet>>| #[trigger]
                call_ensures(ClerkJwksCache::lookup, (cache, kid), served) && str_chars(kid)
                    == token_key_id(self.token())->Ok_0 && resumes(
                    step,
                    self,
                    served,
                    string_chars(config.audience),
                ),
    {
        let ghost audience = string_chars(config.audience);
        let kid: Option<&str> = self.kid();
        let served: Option<Arc<KeySet>> = cache.lookup(kid);
        let ghost looked = kid;
        let ghost given = served;
        let ghost pending = self;
        let ghost now = choose|now: Instant|
            call_ensures(Instant::now, (), now) && set_keys(served) == servable(
                cache.keys(),
                cache.ttl_nanos(),
                str_chars(kid),
                #[trigger] cache.age_at(now),
            );
        let step: Step = match served {
            Some(keys) => self.with_refreshed(Ok(keys), config),
            None => Step::Fetch(self),
        };
        assert(call_ensures(ClerkJwksCache::lookup, (cache, looked), given));
        assert(resumes(step, pending, given, audience));
        assert(starts_at(step, pending, *cache, now, audience));
        step
    }

    /// Goes on with the keys that were fetched for the token, or with why there are none.
    pub fn with_refreshed(
        self,
        refreshed: Result<Arc<KeySet>, ClerkError>,
        config: &ClerkConfig,
    ) -> (step: Step)
        ensures
            goes_on(step, self, refreshed, string_chars(config.audience)),
    {
        match refreshed {
            Ok(keys) => {
                let ghost audience = string_chars(config.audience);
                match self.examine(&keys, config) {
                    Ok(checked) => {
                        assert(checks_to(Ok(checked), self.token(), keys@, audience));
                        Step::Parse(checked)
                    },
                    Err(refused) => {
                        assert(checks_to(Err(refused.error), self.token(), keys@, audience));
                        if refused.bad_params {
                            Step::RefuseKey(refused.error)
                        } else {
                            Step::Refuse(refused.error)
                        }
                    },
                }
            },
            Err(e) => Step::Refuse(e),
        }
    }
}

/// `step` is the next one for `pending`, with the keys that were fetched, or why there are none.
pub open spec fn goes_on(
    step: Step,
    pending: PendingToken,
    refreshed: Result<Arc<KeySet>, ClerkError>,
    audience: Option<Seq<char>>,
) -> bool {
    match refreshed {
        Err(e) => step == Step::Refuse(e),
        Ok(keys) => steps_to(step, pending.token(), keys@, audience),
    }
}

/// The text of `cause` is that of `e`, said to be a JSON error.
pub open spec fn reports_claims_error(
    cause: jsonwebtoken::errors::Error,
    e: serde_json::Error,
) -> bool {
    forall|s: String, t: String|
        #![trigger to_string_from_display_ensures(&cause, s), to_string_from_display_ensures(&e, t)]
        to_string_from_display_ensures(&cause, s) && to_string_from_display_ensures(&e, t) ==> s@
            == "JSON error: "@ + t@
}

/// `jsonwebtoken::errors::Error` from a JSON error, whose text it repeats behind the words
/// `JSON error: `.
pub assume_specification[ <jsonwebtoken::errors::Error as From<serde_json::Error>>::from ](
    err: serde_json::Error,
) -> (r: jsonwebtoken::errors::Error)
    ensures
        reports_claims_error(r, err),
;

/// A token whose signature is good, and whose claims wait to be parsed.
#[derive(Debug)]
pub struct CheckedToken {
    signed: SignedClaims,
}

impl CheckedToken {
    /// The claims of the token, as JSON text.
    pub closed spec fn claims(self) -> Seq<u8> {
        self.signed.claims@
    }

    /// Why the claims do not pass the checks, if they do not.
    pub closed spec fn rejection(self) -> Option<jsonwebtoken::errors::Error> {
        self.signed.rejection
    }

    /// The JSON text of the claims.
    pub fn claims_text(&self) -> (r: &[u8])
        ensures
            r@ == self.claims(),
    {
        self.signed.claims.as_slice()
    }

    /// Takes the claims, or why they could not be parsed.
    ///
    /// Claims that could not be parsed are reported as that, whether or not they pass the
    /// checks.
    pub fn conclude(self, parsed: Result<ClerkClaims, serde_json::Error>) -> (r: Result<
        ClerkClaims,
        ClerkError,
    >)
        ensures
            concludes_to(r, self, parsed),
            r matches Ok(claims) ==> parsed == Ok::<ClerkClaims, serde_json::Error>(claims),
    {
        match parsed {
            Ok(claims) => match self.signed.rejection {
                None => Ok(claims),
                Some(e) => Err(ClerkError::Jwt(e)),
            },
            Err(e) => Err(ClerkError::Jwt(jsonwebtoken::errors::Error::from(e))),
        }
    }
}

/// `r` is what comes of a checked token once its claims are parsed, or could not be.
pub open spec fn concludes_to(
    r: Result<ClerkClaims, ClerkError>,
    checked: CheckedToken,
    parsed: Result<ClerkClaims, serde_json::Error>,
) -> bool {
    match parsed {
        Err(e) => r matches Err(ClerkError::Jwt(cause)) && reports_claims_error(cause, e),
        Ok(claims) => match checked.rejection() {
            None => r == Ok::<ClerkClaims, ClerkError>(claims),
            Some(e) => r == Err::<ClerkClaims, ClerkError>(ClerkError::Jwt(e)),
        },
    }
}

/// `r` is what comes of starting on the session of a request.
pub open spec fn session_opens_to(
    r: Result<Option<PendingToken>, ClerkError>,
    headers: Map<Seq<char>, Seq<Seq<u8>>>,
) -> bool {
    match bearer_token(headers) {
        None => r matches Ok(None),
        Some(token) => match r {
            Ok(Some(pending)) => opens_to(Ok(pending), token),
            Ok(None) => false,
            Err(e) => opens_to(Err(e), token),
        },
    }
}

/// Starts on the session of a request.
///
/// `None` is a request without a token, which has no session.
pub fn open_session(headers: &HeaderMap) -> (r: Result<Option<PendingToken>, ClerkError>)
    ensures
        session_opens_to(r, header_values(*headers)),
{
    match extract_access_token(headers) {
        Some(token) => match PendingToken::open(token.as_str()) {
            Ok(pending) => Ok(Some(pending)),
            Err(e) => Err(e),
        },
        None => Ok(None),
    }
}

/// What a session comes to, given what its token comes to.
pub open spec fn session_outcome(verified: Result<ClerkClaims, ClerkError>) -> Result<
    Option<ClerkClaims>,
    ClerkError,
> {
    match verified {
        Ok(claims) => Ok(Some(claims)),
        Err(e) => Err(e),
    }
}

/// Makes the outcome of a session from that of its token.
pub fn session_claims(verified: Result<ClerkClaims, ClerkError>) -> (r: Result<
    Option<ClerkClaims>,
    ClerkError,
>)
    ensures
        r == session_outcome(verified),
{
    match verified {
        Ok(claims) => Ok(Some(claims)),
        Err(e) => Err(e),
    }
}

/// `r` is what comes of a check that came to `checked`, with the claims parsed in some way.
pub open spec fn check_ends(
    checked: Result<CheckedToken, ClerkError>,
    r: Result<ClerkClaims, ClerkError>,
) -> bool {
    match checked {
        Err(e) => r == Err::<ClerkClaims, ClerkError>(e),
        Ok(checked) => exists|parsed: Result<ClerkClaims, serde_json::Error>| #[trigger]
            concludes_to(r, checked, parsed),
    }
}

/// `r` is what becomes of the token that `opened` came of, with the published keys `keys`, or
/// why there are none, and with its claims parsed in some way.
pub open spec fn token_comes_to(
    r: Result<ClerkClaims, ClerkError>,
    opened: Result<PendingToken, ClerkError>,
    keys: Result<Seq<(Seq<char>, Json)>, ClerkError>,
    audience: Option<Seq<char>>,
) -> bool {
    match opened {
        Err(e) => r == Err::<ClerkClaims, ClerkError>(e),
        Ok(pending) => match keys {
            Err(e) => r == Err::<ClerkClaims, ClerkError>(e),
            Ok(keys) => exists|checked: Result<CheckedToken, ClerkError>| #[trigger]
                checks_to(checked, pending.token(), keys, audience) && check_ends(checked, r),
        },
    }
}

/// `r` is what becomes of the session that `opened` came of, likewise.
pub open spec fn session_comes_to(
    r: Result<Option<ClerkClaims>, ClerkError>,
    opened: Result<Option<PendingToken>, ClerkError>,
    keys: Result<Seq<(Seq<char>, Json)>, ClerkError>,
    audience: Option<Seq<char>>,
) -> bool {
    match opened {
        Err(e) => r == Err::<Option<ClerkClaims>, ClerkError>(e),
        Ok(None) => r == Ok::<Option<ClerkClaims>, ClerkError>(None),
        Ok(Some(pending)) => exists|verified: Result<ClerkClaims, ClerkError>| #[trigger]
            token_comes_to(verified, Ok(pending), keys, audience) && r == session_outcome(
                verified,
            ),
    }
}

/// Two refusals of the same token that say the same: each is for a token that is not valid, and
/// their texts are equal.
pub open spec fn same_refusal(a: ClerkError, b: ClerkError) -> bool {
    a is Jwt && b is Jwt && exists|text: Seq<char>|
        #![trigger has_text(a->Jwt_0, text)]
        has_text(a->Jwt_0, text) && has_text(b->Jwt_0, text)
}

/// The session of a request starts as its token does by itself: with the same pending token, on
/// which every later step rests, or with the same refusal.
pub proof fn law_session_starts_as_its_token(
    headers: Map<Seq<char>, Seq<Seq<u8>>>,
    session: Result<Option<PendingToken>, ClerkError>,
    alone: Result<PendingToken, ClerkError>,
)
    requires
        bearer_token(headers) is Some,
        session_opens_to(session, headers),
        opens_to(alone, bearer_token(headers)->Some_0),
    ensures
        match alone {
            Ok(pending) => session is Ok && session->Ok_0 is Some
                && session->Ok_0->Some_0.token() == pending.token(),
            Err(e) => session is Err && same_refusal(e, session->Err_0),
        },
{
    let token = bearer_token(headers)->Some_0;
    if token_key_id(token) is Err {
        assert(has_text(alone->Err_0->Jwt_0, token_key_id(token)->Err_0));
    }
}

/// The session of a request with a token comes to nothing but what its token comes to by itself,
/// with the same keys: its claims, or the same refusal.
pub proof fn law_session_comes_to_what_its_token_does(
    headers: Map<Seq<char>, Seq<Seq<u8>>>,
    session: Result<Option<PendingToken>, ClerkError>,
    alone: Result<PendingToken, ClerkError>,
    keys: Result<Seq<(Seq<char>, Json)>, ClerkError>,
    audience: Option<Seq<char>>,
    r: Result<Option<ClerkClaims>, ClerkError>,
)
    requires
        bearer_token(headers) is Some,
        session_opens_to(session, headers),
        opens_to(alone, bearer_token(headers)->Some_0),
        session_comes_to(r, session, keys, audience),
    ensures
        exists|verified: Result<ClerkClaims, ClerkError>| #[trigger]
            token_comes_to(verified, alone, keys, audience) && match verified {
                Ok(claims) => r == Ok::<Option<ClerkClaims>, ClerkError>(Some(claims)),
                Err(e) => r is Err && (r->Err_0 == e || same_refusal(e, r->Err_0)),
            },
{
    law_session_starts_as_its_token(headers, session, alone);
    match alone {
        Ok(pending) => {
            let verified = choose|verified: Result<ClerkClaims, ClerkError>| #[trigger]
                token_comes_to(verified, Ok(session->Ok_0->Some_0), keys, audience) && r
                    == session_outcome(verified);
            assert(token_comes_to(verified, alone, keys, audience));
        },
        Err(e) => {
            assert(token_comes_to(Err::<ClerkClaims, ClerkError>(e), alone, keys, audience));
        },
    }
}

/// The token of a request whose `Authorization` header reads `Bearer <token>` is that token.
pub proof fn law_bearer_token_is_extracted(
    headers: Map<Seq<char>, Seq<Seq<u8>>>,
    token: Seq<char>,
)
    requires
        headers.contains_key("authorization"@),
        header_text(headers["authorization"@][0]) == Some("Bearer "@ + token),
    ensures
        bearer_token(headers) == Some(token),
{
    let text = "Bearer "@ + token;
    let n = "Bearer "@.len() as int;
    assert("Bearer "@ =~= text.subrange(0, n));
    assert(text.skip(n) =~= token);
}

/// A request bears no token when it has no `Authorization` header, when the header is not
/// visible ASCII text, and when that text does not start with `Bearer `.
pub proof fn law_other_requests_bear_no_token(headers: Map<Seq<char>, Seq<Seq<u8>>>)
    requires
        headers.contains_key("authorization"@) ==> {
            let text = header_text(headers["authorization"@][0]);
            text is None || !"Bearer "@.is_prefix_of(text->Some_0)
        },
    ensures
        bearer_token(headers) is None,
{
}

/// Keys are fetched at most once for a token: what follows a fetch never asks for another.
pub proof fn law_check_asks_for_no_fetch(
    step: Step,
    pending: PendingToken,
    refreshed: Result<Arc<KeySet>, ClerkError>,
    audience: Option<Seq<char>>,
)
    requires
        goes_on(step, pending, refreshed, audience),
    ensures
        step !is Fetch,
{
}

/// `claims` are the claims of `token`, whose signature is good for the key that `jwk` stands
/// for, and which passes the checks for session tokens at some reading of the clock.
pub open spec fn is_signed_by(
    jwk: Json,
    token: Seq<char>,
    audience: Option<Seq<char>>,
    claims: Seq<u8>,
) -> bool {
    &&& verification_key(jwk) matches Ok(key)
    &&& signature_fault(token, key) is None
    &&& token_payload(token) == Some(claims)
    &&& exists|now: int| (#[trigger] session_verdict(token, key, audience, now)) is Ok
}

/// A token whose check leaves nothing to reject has a good signature for one of the published
/// keys, and has passed the checks for session tokens with that key.
pub proof fn law_unrejected_token_is_signed_by_a_published_key(
    checked: CheckedToken,
    token: Seq<char>,
    keys: Seq<(Seq<char>, Json)>,
    audience: Option<Seq<char>>,
)
    requires
        checks_to(Ok(checked), token, keys, audience),
        checked.rejection() is None,
    ensures
        exists|i: int|
            0 <= i < keys.len() && is_signed_by(
                (#[trigger] keys[i]).1,
                token,
                audience,
                checked.claims(),
            ),
{
    let kid = token_key_id(token)->Ok_0;
    crate::jwks::law_selected_key_is_published(keys, kid);
    let jwk = selected(keys, kid)->Some_0;
    let i = choose|i: int| 0 <= i < keys.len() && (#[trigger] keys[i]).1 == jwk;
    assert(keys[i].1 == jwk);
    let key = verification_key(jwk)->Ok_0;
    let now = choose|now: int| #[trigger] judges_at(checked.rejection(), token, key, audience, now);
    assert(session_verdict(token, key, audience, now) is Ok);
}

/// What was fetched, as keys.
pub open spec fn fetched_keys(refreshed: Result<Arc<KeySet>, ClerkError>) -> Result<
    Seq<(Seq<char>, Json)>,
    ClerkError,
> {
    match refreshed {
        Ok(set) => Ok(set@),
        Err(e) => Err(e),
    }
}

/// `r` is what becomes of the token that `opened` came of when its keys are taken from the cache
/// `before`, which is left as `after`: those that it serves at `looked` for the key ID of the
/// token, and where it serves none, what a refresh at `fetched` came to.
pub open spec fn call_comes_to(
    r: Result<ClerkClaims, ClerkError>,
    opened: Result<PendingToken, ClerkError>,
    before: ClerkJwksCache,
    after: ClerkJwksCache,
    looked: Instant,
    refreshed: Result<Arc<KeySet>, ClerkError>,
    fetched: Instant,
    audience: Option<Seq<char>>,
) -> bool {
    match opened {
        Err(_) => after == before && token_comes_to(r, opened, fetched_keys(refreshed), audience),
        Ok(pending) => match before.serves(token_key_id(pending.token())->Ok_0, looked) {
            Some(keys) => after == before && token_comes_to(r, opened, Ok(keys), audience),
            None => {
                &&& refreshed_at(before, after, refreshed, fetched)
                &&& token_comes_to(r, opened, fetched_keys(refreshed), audience)
            },
        },
    }
}

/// `r` is how `step` ends when the claims, if it asks for them, are parsed to `parsed`.
pub open spec fn ends_with(
    step: Step,
    parsed: Result<ClerkClaims, serde_json::Error>,
    r: Result<ClerkClaims, ClerkError>,
) -> bool {
    match step {
        Step::Fetch(_) => false,
        Step::Parse(checked) => concludes_to(r, checked, parsed),
        Step::Refuse(e) => r == Err::<ClerkClaims, ClerkError>(e),
        Step::RefuseKey(e) => r == Err::<ClerkClaims, ClerkError>(e),
    }
}

/// A step that follows from a check with `keys` ends in what becomes of the token with them.
proof fn lemma_step_ends(
    pending: PendingToken,
    step: Step,
    keys: Seq<(Seq<char>, Json)>,
    audience: Option<Seq<char>>,
    parsed: Result<ClerkClaims, serde_json::Error>,
    r: Result<ClerkClaims, ClerkError>,
)
    requires
        steps_to(step, pending.token(), keys, audience),
        ends_with(step, parsed, r),
    ensures
        token_comes_to(r, Ok(pending), Ok(keys), audience),
{
    let checked = choose|checked: Result<CheckedToken, ClerkError>| #[trigger]
        checks_to(checked, pending.token(), keys, audience) && step.follows(
            checked,
            asks_for_bad_params(pending.token(), keys),
        );
    assert(checked is Ok ==> concludes_to(r, checked->Ok_0, parsed));
    assert(check_ends(checked, r));
    let opened = Ok::<PendingToken, ClerkError>(pending);
    let given = Ok::<Seq<(Seq<char>, Json)>, ClerkError>(keys);
    assert(checks_to(checked, opened->Ok_0.token(), given->Ok_0, audience));
}

/// The steps for a token that is served from the cache make up a call: the cache stays as it is,
/// and nothing is fetched.
pub proof fn law_served_steps_make_up_a_call(
    pending: PendingToken,
    cache: ClerkJwksCache,
    looked: Instant,
    step: Step,
    audience: Option<Seq<char>>,
    parsed: Result<ClerkClaims, serde_json::Error>,
    r: Result<ClerkClaims, ClerkError>,
    refreshed: Result<Arc<KeySet>, ClerkError>,
    fetched: Instant,
)
    requires
        starts_at(step, pending, cache, looked, audience),
        step !is Fetch,
        ends_with(step, parsed, r),
    ensures
        call_comes_to(r, Ok(pending), cache, cache, looked, refreshed, fetched, audience),
{
    let keys = cache.serves(token_key_id(pending.token())->Ok_0, looked)->Some_0;
    lemma_step_ends(pending, step, keys, audience, parsed, r);
}

/// The steps for a token that is not served from the cache make up a call, too: one refresh, and
/// what follows from it.
pub proof fn law_fetched_steps_make_up_a_call(
    pending: PendingToken,
    before: ClerkJwksCache,
    looked: Instant,
    first: Step,
    refreshed: Result<Arc<KeySet>, ClerkError>,
    after: ClerkJwksCache,
    fetched: Instant,
    step: Step,
    audience: Option<Seq<char>>,
    parsed: Result<ClerkClaims, serde_json::Error>,
    r: Result<ClerkClaims, ClerkError>,
)
    requires
        starts_at(first, pending, before, looked, audience),
        first is Fetch,
        refreshed_at(before, after, refreshed, fetched),
        goes_on(step, pending, refreshed, audience),
        ends_with(step, parsed, r),
    ensures
        call_comes_to(r, Ok(pending), before, after, looked, refreshed, fetched, audience),
{
    if refreshed is Ok {
        lemma_step_ends(pending, step, refreshed->Ok_0@, audience, parsed, r);
    }
}

/// A call that gives claims has taken the keys that the cache gives for the key ID of the token,
/// by serving them or by the refresh. The cache holds those keys afterwards, with the time of
/// their fetch and each under its own ID, and the token is signed by one of them: by the one that
/// its header names, where they were served.
pub proof fn law_verified_token_is_signed_by_a_held_key(
    r: Result<ClerkClaims, ClerkError>,
    pending: PendingToken,
    before: ClerkJwksCache,
    after: ClerkJwksCache,
    looked: Instant,
    refreshed: Result<Arc<KeySet>, ClerkError>,
    fetched: Instant,
    audience: Option<Seq<char>>,
)
    requires
        before.keys() is Some ==> well_filed(before.keys()->Some_0),
        call_comes_to(r, Ok(pending), before, after, looked, refreshed, fetched, audience),
        r is Ok,
    ensures
        after.keys() is Some,
        after.fetched_at() is Some,
        well_filed(after.keys()->Some_0),
        gives_keys(
            before,
            after,
            token_key_id(pending.token())->Ok_0,
            looked,
            fetched,
            after.keys()->Some_0,
        ),
        token_comes_to(r, Ok(pending), Ok(after.keys()->Some_0), audience),
        exists|i: int|
            0 <= i < after.keys()->Some_0.len() && is_signed_by(
                (#[trigger] after.keys()->Some_0[i]).1,
                pending.token(),
                audience,
                token_payload(pending.token())->Some_0,
            ) && (before.serves(token_key_id(pending.token())->Ok_0, looked) is Some
                && token_key_id(pending.token())->Ok_0 is Some ==> after.keys()->Some_0[i].0
                == token_key_id(pending.token())->Ok_0->Some_0),
{
    let token = pending.token();
    let kid = token_key_id(token)->Ok_0;
    let keys = match before.serves(kid, looked) {
        Some(keys) => keys,
        None => refreshed->Ok_0@,
    };
    law_held_keys_have_a_fetch_time(before);
    assert(token_comes_to(r, Ok(pending), Ok(keys), audience));
    let checked = choose|checked: Result<CheckedToken, ClerkError>| #[trigger]
        checks_to(checked, token, keys, audience) && check_ends(checked, r);
    let checked = checked->Ok_0;
    assert(after.keys() == Some(keys));
    assert(gives_keys(before, after, kid, looked, fetched, keys));
    let jwk = selected(keys, kid)->Some_0;
    let key = verification_key(jwk)->Ok_0;
    let now = choose|now: int| #[trigger] judges_at(checked.rejection(), token, key, audience, now);
    assert(session_verdict(token, key, audience, now) is Ok);
    assert(is_signed_by(jwk, token, audience, token_payload(token)->Some_0));
    if before.serves(kid, looked) is Some && kid is Some {
        law_served_keys_hold_the_named_key(
            keys,
            before.ttl_nanos(),
            kid->Some_0,
            before.age_at(looked),
        );
        let i = choose|i: int| 0 <= i < keys.len() && #[trigger] keys[i] == (kid->Some_0, jwk);
        assert(keys[i].1 == jwk);
    } else {
        crate::jwks::law_selected_key_is_published(keys, kid);
        let i = choose|i: int| 0 <= i < keys.len() && (#[trigger] keys[i]).1 == jwk;
        assert(keys[i].1 == jwk);
    }
}

/// What a verification gives are the claims as they were parsed, every one of them, and it gives
/// them only where the checks found nothing to reject. Claims that were parsed and not rejected
/// are given; else it says what is wrong: that they could not be parsed, before all, or why they
/// are rejected.
pub proof fn law_claims_are_given_as_they_were_parsed(
    checked: CheckedToken,
    parsed: Result<ClerkClaims, serde_json::Error>,
    r: Result<ClerkClaims, ClerkError>,
)
    requires
        call_ensures(CheckedToken::conclude, (checked, parsed), r),
    ensures
        r matches Ok(claims) ==> {
            &&& parsed matches Ok(own)
            &&& claims.sub@ == own.sub@ && claims.sid@ == own.sid@
            &&& claims.iss == own.iss && claims.azp == own.azp
            &&& claims.exp == own.exp && claims.iat == own.iat && claims.nbf == own.nbf
            &&& claims.org == own.org
            &&& claims == own
        },
        r is Ok <==> parsed is Ok && checked.rejection() is None,
        parsed is Ok && checked.rejection() is Some ==> r == Err::<ClerkClaims, ClerkError>(
            ClerkError::Jwt(checked.rejection()->Some_0),
        ),
        parsed is Err ==> r is Err && r->Err_0 is Jwt,
        forall|cause: String, text: String|
            parsed is Err && #[trigger] to_string_from_display_ensures(&parsed->Err_0, cause)
                && #[trigger] to_string_from_display_ensures(&r->Err_0->Jwt_0, text) ==> text@
                == "JSON error: "@ + cause@,
{
}

/// However a verification ends, the claims that it gives are those that were parsed.
pub proof fn law_ended_steps_give_the_parsed_claims(
    step: Step,
    parsed: Result<ClerkClaims, serde_json::Error>,
    r: Result<ClerkClaims, ClerkError>,
)
    requires
        ends_with(step, parsed, r),
    ensures
        r matches Ok(claims) ==> parsed == Ok::<ClerkClaims, serde_json::Error>(claims)
            && step is Parse && step->Parse_0.rejection() is None,
        step is Parse && step->Parse_0.rejection() is None && parsed is Ok ==> r == Ok::<
            ClerkClaims,
            ClerkError,
        >(parsed->Ok_0),
{
}

/// The claims of a session are those of its token, and its error is that of its token.
pub proof fn law_session_gives_what_its_token_gives(
    verified: Result<ClerkClaims, ClerkError>,
    r: Result<Option<ClerkClaims>, ClerkError>,
)
    requires
        call_ensures(session_claims, (verified,), r),
    ensures
        verified matches Ok(claims) ==> r == Ok::<Option<ClerkClaims>, ClerkError>(Some(claims)),
        verified matches Err(e) ==> r == Err::<Option<ClerkClaims>, ClerkError>(e),
        r != Ok::<Option<ClerkClaims>, ClerkError>(None),
{
}

/// The token of a request is all that follows `Bearer ` in the first value of its `Authorization`
/// header, which has nothing but visible ASCII characters, spaces and tabs; and where the header
/// reads like that, the request has the token.
pub proof fn law_token_is_all_that_follows_bearer(
    headers: &HeaderMap,
    r: Option<String>,
    token: Seq<char>,
)
    requires
        call_ensures(extract_access_token, (headers,), r),
    ensures
        ({
            let values = header_values(*headers);
            let first = values["authorization"@][0];
            &&& r matches Some(own) ==> values.contains_key("authorization"@) && first.len()
                == ("Bearer "@ + own@).len() && forall|i: int|
                0 <= i < first.len() ==> (32 <= #[trigger] first[i] < 127 || first[i] == 9)
                    && first[i] as char == ("Bearer "@ + own@)[i]
            &&& values.contains_key("authorization"@) && first.len() == ("Bearer "@ + token).len()
                && (forall|i: int|
                0 <= i < first.len() ==> (32 <= #[trigger] first[i] < 127 || first[i] == 9)
                    && first[i] as char == ("Bearer "@ + token)[i]) ==> r is Some && r->Some_0@
                == token
        }),
{
    let values = header_values(*headers);
    let first = values["authorization"@][0];
    let text = first.map_values(|b: u8| b as char);
    law_prefix_comes_off_as_it_went_on("Bearer "@, token, text);
    if r is Some {
        assert("Bearer "@ + r->Some_0@ == text);
        assert forall|i: int| 0 <= i < first.len() implies (32 <= #[trigger] first[i] < 127
            || first[i] == 9) && first[i] as char == ("Bearer "@ + r->Some_0@)[i] by {
            assert(is_visible(first[i]));
            assert(text[i] == first[i] as char);
        }
    }
    if values.contains_key("authorization"@) && first.len() == ("Bearer "@ + token).len() && (
    forall|i: int|
        0 <= i < first.len() ==> (32 <= #[trigger] first[i] < 127 || first[i] == 9) && first[i]
            as char == ("Bearer "@ + token)[i]) {
        assert(text =~= "Bearer "@ + token);
        assert forall|i: int| 0 <= i < first.len() implies is_visible(#[trigger] first[i]) by {}
    }
}

/// A token is taken as it is, and refused at once exactly when its header cannot be read.
pub proof fn law_token_is_taken_as_it_is(token: &str, r: Result<PendingToken, ClerkError>)
    requires
        call_ensures(PendingToken::open, (token,), r),
    ensures
        r is Ok <==> token_key_id(token@) is Ok,
        r matches Ok(pending) ==> pending.token() == token@,
        r matches Err(e) ==> e is Jwt && has_text(e->Jwt_0, token_key_id(token@)->Err_0),
{
}

/// A request without a token has no session, and one with a token starts with that token.
pub proof fn law_session_starts_with_the_token_of_the_request(
    headers: &HeaderMap,
    token: Option<String>,
    r: Result<Option<PendingToken>, ClerkError>,
)
    requires
        call_ensures(extract_access_token, (headers,), token),
        call_ensures(open_session, (headers,), r),
    ensures
        token is None <==> r is Ok && r->Ok_0 is None,
        token matches Some(own) ==> (token_key_id(own@) is Ok ==> r is Ok && r->Ok_0 is Some
            && r->Ok_0->Some_0.token() == own@),
        token matches Some(own) ==> (token_key_id(own@) matches Err(text) ==> r is Err && r->Err_0
            is Jwt && has_text(r->Err_0->Jwt_0, text)),
{
}

/// `token` passes the checks `wanted` at `now` under the key that `jwk` stands for.
pub open spec fn passes_under(jwk: Json, token: Seq<char>, wanted: Rules, now: int) -> bool {
    &&& key_set_params(Json::Object(map!["keys"@ => Json::Array(seq![jwk])])) matches Ok(params)
    &&& params.len() > 0
    &&& made_key(params[0]) matches Some(key)
    &&& token_verdict(token, key, wanted, now) is Ok
}

/// A token that is checked and not rejected passes every check for session tokens under one of the
/// published keys, at a reading of the clock: under one that stands under the key ID of the token,
/// where one does. Its claims are those of its payload.
pub proof fn law_unrejected_token_passes_under_a_published_key(
    pending: &PendingToken,
    keys: &KeySet,
    config: &ClerkConfig,
    r: Result<CheckedToken, ClerkError>,
)
    requires
        call_ensures(PendingToken::check, (pending, keys, config), r),
    ensures
        r matches Ok(checked) ==> token_payload(pending.token()) == Some(checked.claims()),
        r matches Ok(checked) ==> (checked.rejection() is None ==> exists|i: int, now: int|
            0 <= i < keys@.len() && #[trigger] passes_under(
                keys@[i].1,
                pending.token(),
                wanted_rules(config.audience),
                now,
            ) && (forall|k: int|
                0 <= k < keys@.len() && Some((#[trigger] keys@[k]).0) == token_key_id(
                    pending.token(),
                )->Ok_0 ==> keys@[i].0 == keys@[k].0)),
        keys@.len() == 0 ==> r is Err && r->Err_0 is KeyNotFound && string_chars(
            r->Err_0->KeyNotFound_0,
        ) == token_key_id(pending.token())->Ok_0,
        r matches Err(e) ==> (e is KeyNotFound ==> keys@.len() == 0),
{
    let token = pending.token();
    let audience = string_chars(config.audience);
    lemma_check_passes_under(r, token, keys@, audience, config.audience);
}

/// What the check of a token says of the published keys.
proof fn lemma_check_passes_under(
    r: Result<CheckedToken, ClerkError>,
    token: Seq<char>,
    keys: Seq<(Seq<char>, Json)>,
    audience: Option<Seq<char>>,
    name: Option<String>,
)
    requires
        checks_to(r, token, keys, audience),
        audience == string_chars(name),
    ensures
        r matches Ok(checked) ==> (checked.rejection() is None ==> exists|i: int, now: int|
            0 <= i < keys.len() && #[trigger] passes_under(
                keys[i].1,
                token,
                wanted_rules(name),
                now,
            ) && (forall|k: int|
                0 <= k < keys.len() && Some((#[trigger] keys[k]).0) == token_key_id(token)->Ok_0
                    ==> keys[i].0 == keys[k].0)),
        selected(keys, token_key_id(token)->Ok_0) is None <==> keys.len() == 0,
{
    let kid = token_key_id(token)->Ok_0;
    crate::jwks::law_selected_key_is_published(keys, kid);
    assert(session_rules(audience) =~= wanted_rules(name));
    if r is Ok && r->Ok_0.rejection() is None {
        let checked = r->Ok_0;
        let jwk = selected(keys, kid)->Some_0;
        let key = verification_key(jwk)->Ok_0;
        let now = choose|now: int| #[trigger]
            judges_at(checked.rejection(), token, key, audience, now);
        assert(judges_at(checked.rejection(), token, key, audience, now));
        assert(session_verdict(token, key, audience, now) is Ok);
        assert(passes_under(jwk, token, wanted_rules(name), now));
        if kid is Some && knows(keys, kid->Some_0) {
            let i = choose|i: int|
                0 <= i < keys.len() && #[trigger] keys[i] == (
                    kid->Some_0,
                    selected(keys, kid)->Some_0,
                );
            assert(passes_under(keys[i].1, token, wanted_rules(name), now));
        } else {
            let i = choose|i: int| 0 <= i < keys.len() && (#[trigger] keys[i]).1 == jwk;
            assert(passes_under(keys[i].1, token, wanted_rules(name), now));
            if kid is Some {
                crate::jwks::law_known_ids_are_those_that_are_there(keys, kid->Some_0);
            }
        }
    }
}

/// The key at `at` is the one for a token with the key ID `kid`: the first that stands under that
/// ID, or under the empty ID for a token without one, and where none does, the first of all.
pub open spec fn is_key_for(
    keys: Seq<(Seq<char>, Json)>,
    kid: Option<Seq<char>>,
    at: int,
) -> bool {
    let id = match kid {
        Some(id) => id,
        None => Seq::<char>::empty(),
    };
    &&& 0 <= at < keys.len()
    &&& (keys[at].0 == id && forall|k: int| 0 <= k < at ==> (#[trigger] keys[k]).0 != id) || (at
        == 0 && forall|k: int| 0 <= k < keys.len() ==> (#[trigger] keys[k]).0 != id)
}

/// The key for a token is the one that is selected.
proof fn lemma_key_for(keys: Seq<(Seq<char>, Json)>, kid: Option<Seq<char>>, at: int)
    requires
        is_key_for(keys, kid, at),
    ensures
        selected(keys, kid) == Some(keys[at].1),
{
    let id = match kid {
        Some(id) => id,
        None => Seq::<char>::empty(),
    };
    crate::jwks::law_known_ids_are_those_that_are_there(keys, id);
    let p = crate::jwks::position(keys, id);
    if keys[at].0 == id {
        if p < at {
            assert(keys[p].0 == id);
        } else if at < p {
            assert(keys[at].0 != id);
        }
    }
}

/// A token whose signature is good for its key, and which passes every check for session tokens
/// at every reading of the clock, is checked and not rejected, whatever other keys are published.
pub proof fn law_token_that_passes_is_not_rejected(
    pending: &PendingToken,
    keys: &KeySet,
    config: &ClerkConfig,
    r: Result<CheckedToken, ClerkError>,
    at: int,
    params: Seq<KeyParams>,
    key: KeyParts,
)
    requires
        call_ensures(PendingToken::check, (pending, keys, config), r),
        is_key_for(keys@, token_key_id(pending.token())->Ok_0, at),
        key_set_params(Json::Object(map!["keys"@ => Json::Array(seq![keys@[at].1])])) == Ok::<
            Seq<KeyParams>,
            Seq<char>,
        >(params),
        params.len() > 0,
        made_key(params[0]) == Some(key),
        token_verdict(pending.token(), key, rs256_rules().signature_alone(), 0) is Ok,
        forall|now: int|
            (#[trigger] token_verdict(
                pending.token(),
                key,
                wanted_rules(config.audience),
                now,
            )) is Ok,
    ensures
        r is Ok,
        r->Ok_0.rejection() is None,
{
    let audience = string_chars(config.audience);
    assert(session_rules(audience) =~= wanted_rules(config.audience));
    lemma_key_for(keys@, token_key_id(pending.token())->Ok_0, at);
    assert(verification_key(keys@[at].1) == Ok::<KeyParts, Seq<char>>(key));
    let now = choose|now: int| #[trigger]
        judges_at(r->Ok_0.rejection(), pending.token(), key, audience, now);
    assert(judges_at(r->Ok_0.rejection(), pending.token(), key, audience, now));
    assert(session_verdict(pending.token(), key, audience, now) == token_verdict(
        pending.token(),
        key,
        wanted_rules(config.audience),
        now,
    ));
}

/// A token is refused, or its claims are rejected, for what is wrong with it or with its key: a
/// JWK that cannot be read, parameters that stand for no key, a signature that is not good for
/// the key, or claims that do not pass at a reading of the clock. The refusal says what that is,
/// and only the second is told as a fault of the parameters.
pub proof fn law_refusal_says_what_is_wrong(
    pending: PendingToken,
    keys: Arc<KeySet>,
    config: &ClerkConfig,
    r: Result<CheckedToken, ClerkError>,
    next: Step,
    at: int,
)
    requires
        call_ensures(PendingToken::check, (&pending, &*keys, config), r),
        call_ensures(PendingToken::with_refreshed, (pending, Ok(keys), config), next),
        is_key_for(keys@, token_key_id(pending.token())->Ok_0, at),
    ensures
        ({
            let read = key_set_params(
                Json::Object(map!["keys"@ => Json::Array(seq![keys@[at].1])]),
            );
            &&& read matches Err(text) ==> r is Err && r->Err_0 is JwksParse
                && r->Err_0->JwksParse_0@ == text && next is Refuse
            &&& read matches Ok(params) ==> (params.len() == 0 ==> r is Err && r->Err_0 is JwksParse
                && next is Refuse)
            &&& read matches Ok(params) ==> (params.len() > 0 ==> (made_key(params[0]) is None
                ==> r is Err && r->Err_0 is JwksParse && r->Err_0->JwksParse_0@ == params_fault(
                params[0],
            ) && next is RefuseKey))
            &&& read matches Ok(params) ==> (params.len() > 0 ==> (made_key(params[0]) matches Some(
                key,
            ) ==> {
                let alone = token_verdict(
                    pending.token(),
                    key,
                    rs256_rules().signature_alone(),
                    0,
                );
                &&& next !is RefuseKey
                &&& alone matches Err(fault) ==> (!fault.json || token_key_id(pending.token())
                    is Err ==> r is Err && r->Err_0 is Jwt && has_text(
                    r->Err_0->Jwt_0,
                    fault.text,
                ) && next is Refuse)
                &&& r is Ok ==> next is Parse
                &&& r matches Ok(checked) ==> (checked.rejection() matches Some(e) ==> exists|
                    now: int,
                | (#[trigger] token_verdict(
                    pending.token(),
                    key,
                    wanted_rules(config.audience),
                    now,
                )) is Err && has_text(
                    e,
                    token_verdict(
                        pending.token(),
                        key,
                        wanted_rules(config.audience),
                        now,
                    )->Err_0.text,
                ))
            }))
        }),
{
    let token = pending.token();
    let audience = string_chars(config.audience);
    assert(session_rules(audience) =~= wanted_rules(config.audience));
    lemma_key_for(keys@, token_key_id(token)->Ok_0, at);
    let jwk = keys@[at].1;
    assert(steps_to(next, token, keys@, audience));
    let other = choose|other: Result<CheckedToken, ClerkError>| #[trigger]
        checks_to(other, token, keys@, audience) && next.follows(
            other,
            asks_for_bad_params(token, keys@),
        );
    assert(checks_to(other, token, keys@, audience));
    assert(checks_to(r, token, keys@, audience));
    if r is Ok {
        let key = verification_key(jwk)->Ok_0;
        let now = choose|now: int| #[trigger]
            judges_at(r->Ok_0.rejection(), token, key, audience, now);
        assert(judges_at(r->Ok_0.rejection(), token, key, audience, now));
        assert(session_verdict(token, key, audience, now) == token_verdict(
            token,
            key,
            wanted_rules(config.audience),
            now,
        ));
    }
}

/// The first step for a token is to fetch the keys exactly when the cache serves none for its key
/// ID; with the keys that it serves, or with those that were fetched, a token goes on only to have
/// its claims parsed or to be refused. Claims that are to be parsed and are not rejected are those
/// of a token that passes every check under one of these keys.
pub proof fn law_steps_go_by_the_keys_at_hand(
    pending: PendingToken,
    cache: &ClerkJwksCache,
    now: Instant,
    config: &ClerkConfig,
    kid: Option<&str>,
    served: Option<Arc<KeySet>>,
    step: Step,
    refreshed: Result<Arc<KeySet>, ClerkError>,
    next: Step,
)
    requires
        call_ensures(PendingToken::kid, (&pending,), kid),
        call_ensures(ClerkJwksCache::lookup_at, (cache, kid, now), served),
        call_ensures(PendingToken::with_cache_at, (pending, cache, now, config), step),
        call_ensures(PendingToken::with_refreshed, (pending, refreshed, config), next),
    ensures
        served is None ==> step == Step::Fetch(pending),
        served is Some ==> step !is Fetch,
        next !is Fetch,
        refreshed matches Err(e) ==> next == Step::Refuse(e),
        served matches Some(set) ==> (step matches Step::Parse(checked) ==> token_payload(
            pending.token(),
        ) == Some(checked.claims()) && (checked.rejection() is None ==> exists|i: int, at: int|
            0 <= i < set@.len() && #[trigger] passes_under(
                set@[i].1,
                pending.token(),
                wanted_rules(config.audience),
                at,
            ))),
        refreshed matches Ok(set) ==> (next matches Step::Parse(checked) ==> token_payload(
            pending.token(),
        ) == Some(checked.claims()) && (checked.rejection() is None ==> exists|i: int, at: int|
            0 <= i < set@.len() && #[trigger] passes_under(
                set@[i].1,
                pending.token(),
                wanted_rules(config.audience),
                at,
            ))),
{
    let audience = string_chars(config.audience);
    let token = pending.token();
    if served is Some {
        let keys = served->Some_0@;
        assert(steps_to(step, token, keys, audience));
        let r = choose|r: Result<CheckedToken, ClerkError>| #[trigger]
            checks_to(r, token, keys, audience) && step.follows(
                r,
                asks_for_bad_params(token, keys),
            );
        lemma_check_passes_under(r, token, keys, audience, config.audience);
    }
    if refreshed is Ok {
        let keys = refreshed->Ok_0@;
        assert(steps_to(next, token, keys, audience));
        let r = choose|r: Result<CheckedToken, ClerkError>| #[trigger]
            checks_to(r, token, keys, audience) && next.follows(
                r,
                asks_for_bad_params(token, keys),
            );
        lemma_check_passes_under(r, token, keys, audience, config.audience);
    }
}

/// Expired keys are fetched again: where every reading that the clock gives is at least the TTL
/// after the fetch of the keys, the first step for a token is to fetch them. So it is where the
/// cache holds none under the key ID of the token, or none at all.
pub proof fn law_token_is_not_checked_with_expired_keys(
    pending: PendingToken,
    cache: &ClerkJwksCache,
    config: &ClerkConfig,
    step: Step,
)
    requires
        call_ensures(PendingToken::with_cache, (pending, cache, config), step),
        cache.keys() matches Some(keys) ==> (forall|now: Instant| #[trigger]
            call_ensures(Instant::now, (), now) ==> span_nanos(cache.fetched_at()->Some_0, now)
                >= cache.ttl_nanos()) || (token_key_id(pending.token())->Ok_0 matches Some(kid)
            && forall|i: int| 0 <= i < keys.len() ==> (#[trigger] keys[i]).0 != kid),
    ensures
        step == Step::Fetch(pending),
{
    let audience = string_chars(config.audience);
    let now = choose|now: Instant|
        call_ensures(Instant::now, (), now) && #[trigger] starts_at(
            step,
            pending,
            *cache,
            now,
            audience,
        );
    assert(call_ensures(Instant::now, (), now));
    law_held_keys_have_a_fetch_time(*cache);
    let kid = token_key_id(pending.token())->Ok_0;
    if cache.keys() is Some && kid is Some {
        crate::jwks::law_known_ids_are_those_that_are_there(cache.keys()->Some_0, kid->Some_0);
    }
}

/// The first step for a token goes by a lookup for its own key ID, in the cache at hand, by the
/// monotonic clock.
pub proof fn law_first_step_looks_the_key_up(
    pending: PendingToken,
    cache: &ClerkJwksCache,
    config: &ClerkConfig,
    step: Step,
)
    requires
        call_ensures(PendingToken::with_cache, (pending, cache, config), step),
    ensures
        exists|kid: Option<&str>, served: Option<Arc<KeySet>>| #[trigger]
            call_ensures(ClerkJwksCache::lookup, (cache, kid), served) && str_chars(kid)
                == token_key_id(pending.token())->Ok_0 && (served is None <==> step is Fetch) && (
            step is Fetch ==> step == Step::Fetch(pending)),
{
    let audience = string_chars(config.audience);
    let (kid, served) = choose|kid: Option<&str>, served: Option<Arc<KeySet>>| #[trigger]
        call_ensures(ClerkJwksCache::lookup, (cache, kid), served) && str_chars(kid)
            == token_key_id(pending.token())->Ok_0 && resumes(step, pending, served, audience);
    assert(call_ensures(ClerkJwksCache::lookup, (cache, kid), served));
}

} // verus!
