//! Why a session is not verified.

use vstd::prelude::*;
use vstd::std_specs::convert::FromSpecImpl;
use vstd::string::to_string_from_display_ensures;

verus! {

/// Why an HTTP request did not get a response.
#[verifier::external_type_specification]
#[verifier::external_body]
pub struct ExRequestError(reqwest::Error);

/// Why a token is not valid.
#[verifier::external_type_specification]
#[verifier::external_body]
pub struct ExTokenError(jsonwebtoken::errors::Error);

/// Why the JWKS endpoint gave no JSON document.
#[derive(Debug)]
pub enum FetchError {
    /// The request failed, or the response could not be read.
    Request(reqwest::Error),
    /// The response body is no JSON document.
    Body(serde_json::Error),
}

/// Why a session is not verified.
#[derive(Debug)]
pub enum ClerkError {
    /// The JWKS endpoint gave no JSON document.
    JwksFetch(FetchError),
    /// The JWKS document, or a key of it, is not usable.
    JwksParse(String),
    /// No key is there for the key ID of the token.
    KeyNotFound(Option<String>),
    /// The token is not valid.
    Jwt(jsonwebtoken::errors::Error),
}

impl From<reqwest::Error> for ClerkError {
    fn from(e: reqwest::Error) -> (r: Self) {
        ClerkError::JwksFetch(FetchError::Request(e))
    }
}

impl FromSpecImpl<reqwest::Error> for ClerkError {
    open spec fn obeys_from_spec() -> bool {
        true
    }

    open spec fn from_spec(e: reqwest::Error) -> Self {
        ClerkError::JwksFetch(FetchError::Request(e))
    }
}

impl From<jsonwebtoken::errors::Error> for ClerkError {
    fn from(e: jsonwebtoken::errors::Error) -> (r: Self) {
        ClerkError::Jwt(e)
    }
}

impl FromSpecImpl<jsonwebtoken::errors::Error> for ClerkError {
    open spec fn obeys_from_spec() -> bool {
        true
    }

    open spec fn from_spec(e: jsonwebtoken::errors::Error) -> Self {
        ClerkError::Jwt(e)
    }
}

/// `s` in double quotes, with what is not printable escaped.
pub uninterp spec fn quoted(s: Seq<char>) -> Seq<char>;

/// The `Debug` form of `str`: `s` in double quotes, with what is not printable escaped.
#[verifier::external_body]
fn quote(s: &str) -> (r: String)
    ensures
        r@ == quoted(s@),
{
    format!("{s:?}")
}

/// `text` is the text that `e` has of itself.
pub open spec fn has_text(e: jsonwebtoken::errors::Error, text: Seq<char>) -> bool {
    forall|s: String| #[trigger] to_string_from_display_ensures(&e, s) ==> s@ == text
}

/// `text` is the text of `e`: for a cause from elsewhere, the words for what failed in front of
/// the text that the cause has of itself.
pub open spec fn is_error_text(e: ClerkError, text: Seq<char>) -> bool {
    match e {
        ClerkError::JwksFetch(FetchError::Request(cause)) => exists|s: String| #[trigger]
            to_string_from_display_ensures::<reqwest::Error>(&cause, s) && text
                == "JWKS fetch failed: "@ + s@,
        ClerkError::JwksFetch(FetchError::Body(_)) => text
            == "JWKS fetch failed: error decoding response body"@,
        ClerkError::JwksParse(cause) => text == "JWKS parse failed: "@ + cause@,
        ClerkError::KeyNotFound(None) => text == "no matching key found for kid=None"@,
        ClerkError::KeyNotFound(Some(kid)) => text == "no matching key found for kid=Some("@
            + quoted(kid@) + ")"@,
        ClerkError::Jwt(cause) => exists|s: String| #[trigger]
            to_string_from_display_ensures::<jsonwebtoken::errors::Error>(&cause, s) && text
                == "JWT verification failed: "@ + s@,
    }
}

impl ClerkError {
    /// The text of this error, for people.
    pub fn message(&self) -> (r: String)
        ensures
            is_error_text(*self, r@),
    {
        match self {
            ClerkError::JwksFetch(FetchError::Request(cause)) => {
                let text: String = cause.to_string();
                "JWKS fetch failed: ".to_owned().concat(text.as_str())
            },
            ClerkError::JwksFetch(FetchError::Body(_)) => {
                "JWKS fetch failed: error decoding response body".to_owned()
            },
            ClerkError::JwksParse(cause) => {
                "JWKS parse failed: ".to_owned().concat(cause.as_str())
            },
            ClerkError::KeyNotFound(None) => "no matching key found for kid=None".to_owned(),
            ClerkError::KeyNotFound(Some(kid)) => {
                let name: String = quote(kid.as_str());
                "no matching key found for kid=Some(".to_owned().concat(name.as_str()).concat(")")
            },
            ClerkError::Jwt(cause) => {
                let text: String = cause.to_string();
                "JWT verification failed: ".to_owned().concat(text.as_str())
            },
        }
    }
}

/// The message of an error tells all of its cause: what is wrong with a JWKS document, the key ID
/// that no key was found for, what the token is refused for, or why the request failed.
pub proof fn law_message_tells_the_cause(e: &ClerkError, message: String, text: Seq<char>)
    requires
        call_ensures(ClerkError::message, (e,), message),
    ensures
        *e matches ClerkError::JwksParse(cause) ==> message@ == "JWKS parse failed: "@ + cause@,
        *e matches ClerkError::KeyNotFound(Some(kid)) ==> message@
            == "no matching key found for kid=Some("@ + quoted(kid@) + ")"@,
        *e matches ClerkError::KeyNotFound(None) ==> message@
            == "no matching key found for kid=None"@,
        *e matches ClerkError::Jwt(cause) ==> (has_text(cause, text) ==> message@
            == "JWT verification failed: "@ + text),
        *e matches ClerkError::JwksFetch(FetchError::Request(cause)) ==> exists|s: String|
            #[trigger] to_string_from_display_ensures::<reqwest::Error>(&cause, s) && message@
                == "JWKS fetch failed: "@ + s@,
        *e matches ClerkError::JwksFetch(FetchError::Body(_)) ==> message@
            == "JWKS fetch failed: error decoding response body"@,
{
}

} // verus!
