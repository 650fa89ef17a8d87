# vector_security_layer

The security boundary of the Vector Network: before a request reaches the
kernel it is checked for structure, policy compliance, wallet and region
binding, attestation subjects and score, replay, and an Ed25519 signature
over its canonical bytes; accepted requests become certified events that are
appended to an event store and an audit log.

## Layout

- `src/` — the library, written in Verus. Every function carries a
  `requires`/`ensures` contract that Verus proves. Scores and thresholds are
  held as binary64 bit patterns (`Ratio`) and compared on that encoding.
  Ed25519 (`ed25519-dalek`), BLAKE3 (`blake3`) and the operating system's
  random source (`rand_core`) are reached through a few small wrappers whose
  contracts are trusted; see `src/crypto.rs`.
- `src/engine.rs` — the validation pipeline. `SecurityEngine::validation_step`
  states what `validate` does; the `law_*` proof functions next to it state
  the security invariants: a nonce or event hash is accepted at most once,
  refusals change nothing, records are append-only, state changes only for
  validated envelopes, acceptance is decided by the checks, and an
  accepted envelope passed every check.
- Other `law_*` proof functions: the replay window (`src/replay.rs`), the
  canonical request bytes binding every signed field (`src/crypto.rs`),
  ratio ordering and clamping (`src/ratio.rs`), hexadecimal rendering
  (`src/text.rs`) and attestation summaries (`src/attestation.rs`).
- `app/` — plain Rust around the library: the clock, floating-point mean of
  attestation scores, JSON files for the event log and replay snapshot
  (`serde`, `serde_json`), error display (`thiserror`), logging (`tracing`)
  and the async entry point (`tokio`).
- `tests/` — tests of the library on concrete values.
