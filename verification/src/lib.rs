//! A persistent, keyed idempotent-execution cache.
//!
//! The engine guarantees that a client-submitted action runs at most once per
//! logical request, even when the client retries the same request — possibly
//! concurrently. The first submission of a `(owner, key)` pair claims the pair
//! and performs the action; every later submission of the same pair receives
//! the recorded response verbatim, without re-executing the action.
//!
//! - [`idempotency_key`] validates and wraps the caller-supplied key token.
//! - [`response`] holds the replayable response shape and its stored-row codec.
//! - [`store`] is the claim table: unique per `(owner, key)`, write-once.
//! - [`coordinator`] is the processing state machine (`try_begin` / `complete`).
//! - [`newsletter`] is the caller-facing submission payload.
//! - [`laws`] proves the engine's global guarantees over whole call traces.

pub mod coordinator;
pub mod idempotency_key;
pub mod laws;
pub mod newsletter;
pub mod response;
pub mod store;
