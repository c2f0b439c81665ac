# back

The backend of a self-hosted git service: accounts and tokens, repositories,
commit and file listings, uploads, comments and issues.

- `src/` is the library, written in Verus. Each public function carries a
  contract (`requires` / `ensures`) that Verus proves. The decisions of every
  request live here: password and token checks, the refresh-token life cycle,
  error statuses, page arithmetic, the revision-walk decisions, tree and file
  listings built from what the repository holds, branch and reference
  statistics, upload hashing and storage keys, and cache sizing. Calls into
  outside crates (argon2, jsonwebtoken, sha2, hex, base64, time, uuid, http)
  sit behind small trusted wrappers whose contracts say what those crates
  promise.
- `app/` is the HTTP service around the library: axum handlers, SQL through
  sqlx, repository reads through gix, and the serde types of the wire format.
- `tests/` exercises the library on concrete values.
