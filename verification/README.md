# runtrol_daemon

The decision logic of the Runtrol Runtime's public endpoint, written in Verus: every function in
`src/` carries a contract, and the laws the endpoint relies on are proved as public proof
functions beside the code they speak of.

## Layout

- `src/kinds.rs` — the public vocabulary: error kinds, app scopes, lifecycles, the method table.
- `src/auth.rs` — integration identities, grants and their revalidation, signatures over the
  handshake, key rotation, enrollment admission.
- `src/handshake.rs` — revision negotiation, the authority a connection starts with, and which
  enrollment requests a connection may make.
- `src/audit.rs` — the journal around one request: what is recorded before and after dispatch.
- `src/serve.rs` — routing, required scopes, the session lane's parsing, and the translation of
  every internal refusal into its public sentence.
- `src/control.rs` — the single-owner control ledger: idempotent mutation memory, control
  leases, mutation authenticators.
- `src/mutation.rs` — the steps of one idempotent control mutation, from its identity to its
  recorded answer.
- `src/open.rs`, `src/forget.rs` — admitting and running a session open; admitting a forget.
- `src/cursor.rs`, `src/wire.rs` — sealed, context-bound catalogue cursors and adoption proofs.
- `src/catalogue.rs`, `src/activity.rs`, `src/capabilities.rs`, `src/models.rs` — what a
  provider reports, filtered and projected for a client.
- `src/inventory.rs`, `src/relay.rs` — the managed-session catalogue, approved roots, the
  provider inventory, and the steps of running provider and session index watches.
- `src/locator.rs` — the durable instance identity and the locator publication rules.
- `src/crypto.rs`, `src/text.rs` — the trusted boundary to the hashing, MAC, signature, Base64
  and randomness crates and to a few `String` operations, each stated with what it is trusted
  to do.
- `app/` — the filesystem side of the instance record and the locator.
- `tests/` — executable checks of the library on concrete values.
