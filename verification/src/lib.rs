//! Retry orchestration for fallible operations.
//!
//! An operation reports each failure as transient, permanent or exhausted.
//! The engine retries the transient ones, with a randomized exponential
//! backoff between the attempts, until the operation succeeds, fails for
//! good, or has used up its budget of attempts.
//!
//! - `taxonomy`: the kinds of failure and the escalation rule.
//! - `transport`, `adapter`: from an error of the transport to a failure.
//! - `backoff`: the growth of the wait and its jitter.
//! - `span`: spans of time as whole nanoseconds.
//! - `random`: the generator that the jitter is drawn from.
//! - `settings`: the policy of a session.
//! - `engine`: what to do after one attempt.
//! - `session`: whole sessions and the laws that hold of them.
//! - `retry`: the loop, for callers that wait by a call of their own.

pub mod adapter;
pub mod backoff;
pub mod engine;
pub mod random;
pub mod retry;
pub mod session;
pub mod settings;
pub mod span;
pub mod taxonomy;
pub mod transport;

pub use adapter::classify;
pub use backoff::Multiplier;
pub use engine::Progress;
pub use engine::Verdict;
pub use retry::retry;
pub use settings::Settings;
pub use taxonomy::Details;
pub use taxonomy::Error;
pub use transport::Failure;
