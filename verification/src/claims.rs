//! Connection settings and the claims of a session.

use vstd::prelude::*;

verus! {

/// Clerk connection config required to verify JWTs.
#[derive(Debug, Clone)]
pub struct ClerkConfig {
    /// JWKS endpoint URL, e.g. `https://<your-clerk-domain>/.well-known/jwks.json`.
    pub jwks_url: String,
    /// Expected `aud` claim. Leave `None` to skip audience validation.
    pub audience: Option<String>,
}

/// Standard claims present in every Clerk-issued JWT.
#[derive(Debug, Clone)]
pub struct ClerkClaims {
    /// Clerk user ID (`user_xxx`).
    pub sub: String,
    /// Clerk session ID (`sess_xxx`).
    pub sid: String,
    /// Issuer: your Clerk frontend API URL.
    pub iss: Option<String>,
    /// Authorized party (frontend origin).
    pub azp: Option<String>,
    /// Expiry (Unix timestamp).
    pub exp: i64,
    /// Issued-at (Unix timestamp).
    pub iat: i64,
    /// Not-before (Unix timestamp).
    pub nbf: Option<i64>,
    /// Organization claims (present when an org is active in the session).
    pub org: Option<ClerkOrgClaims>,
}

/// Clerk organization claims embedded in the JWT when an org context is active.
#[derive(Debug, Clone)]
pub struct ClerkOrgClaims {
    /// Org ID (`org_xxx`).
    pub id: String,
    /// Org role (`org:admin`, `org:member`, and so on).
    pub rol: Option<String>,
    /// Org slug.
    pub slg: Option<String>,
    /// Org permissions.
    pub per: Vec<String>,
}

} // verus!
