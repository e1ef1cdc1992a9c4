# bjorst-clerk-axum

Clerk JWT verification for Axum APIs, and Clerk webhook verification, with the logic proved in
Verus. Sessions are RS256 JWTs, checked against the Clerk JWKS endpoint with an in-process key
cache.

- `src/` is the library. Each function states in its contract what it returns; where a clock
  is read, that is the right result for some reading of it. The proof functions named `law_*`
  state what holds across functions.
  - `webhook`: Svix signatures of webhooks.
  - `session`: from the `Authorization` header of a request to its claims, step by step.
  - `jwt`: keys, signatures and token checks.
  - `jwks`, `cache`: the published keys and how long they are kept.
  - `claims`, `error`: the types that callers see.
  - `json`, `crypto`, `clock`, `text`: what the modules above are built on.
- `app/` holds the async functions for Axum handlers: it requests the JWKS endpoint, shares the
  cache behind a lock, and parses the claims.
- `tests/` runs the library with the real crates underneath.

What is taken on trust are the functions marked `#[verifier::external_body]`, the
`assume_specification` items and the names without a body. Each says in its doc comment which
function of another crate it stands for and what is claimed of that function.

## Use

```rust
let config = ClerkConfig {
    jwks_url: "https://<your-clerk-domain>/.well-known/jwks.json".into(),
    audience: None,
};
let cache = ClerkJwksCache::new(Duration::from_secs(3600));
let client = reqwest::Client::new();

// In an Axum handler or middleware:
let claims = verify_session(&headers, &client, &config, &cache).await?;
// Ok(None): no token present
// Ok(Some(claims)): verified
// Err(_): network or JWT error
```

Keys are fetched lazily on the first call, and again when the TTL expires or a token names an
unknown `kid`.
