# auth_service

A multi-tenant authentication service. Each tenant gets its own database schema, a public
anon key and a secret key (of which only a SHA-256 hash is stored), and optionally a Google
OAuth client.

## Layout

- `src/` — the library, verified with Verus.
  - `iam/tenancy` — the tenancy context: value objects and aggregates with their validation
    rules, the commands and queries, the decisions of the command and query services (tenant
    creation is a small state machine that drops the schema again when saving fails), the
    stored form of a tenant and its round trip, the SQL of tenant schemas, and the decisions
    of the REST and command-line interfaces.
  - `provisioning` — databases per tenant: resource names, the provisioning steps, and the
    SQL and connection strings of the PostgreSQL and SQLite provisioners.
  - `shared` — migrations (which files run, in which order), rate limiting (the plan of
    buckets per request and the token-bucket arithmetic), the admin-panel origin lock,
    account lockout, Docker and Vault helpers, UUID, hashing and randomness.
  - `text.rs` — character-level string rules (trimming, splitting, lowercasing, ordering).
- `app/` — the process around the library: configuration, PostgreSQL and Redis access,
  HTTP handlers and middleware (axum), the command line, Docker and Vault clients.
- `tests/` — tests of the library's public functions.

Calls into other crates (`uuid`, `rand`, `sha2`, `hex`, `url`, `chrono`) and a few `std`
functions sit behind small trusted wrappers in `src/`, each documented with what its
contract claims.
