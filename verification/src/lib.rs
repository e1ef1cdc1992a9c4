//! Verification of Clerk sessions and Clerk webhooks for Axum services.

pub mod cache;
pub mod claims;
pub mod clock;
pub mod crypto;
pub mod error;
pub mod json;
pub mod jwks;
pub mod jwt;
pub mod session;
pub mod text;
pub mod webhook;

pub use cache::ClerkJwksCache;
pub use claims::{ClerkClaims, ClerkConfig, ClerkOrgClaims};
pub use error::{ClerkError, FetchError};
pub use session::extract_access_token;
