//! The failure taxonomy and the escalation rule.

use vstd::prelude::*;

verus! {

/// Built-in reasons for a failure. A reason only annotates why a failure was
/// classified as it was; it carries no data.
#[derive(Debug, Clone, Copy, PartialEq, Eq, Structural)]
pub enum Details {
    Duplicate,
    Throttled,
    NotFound,
    Unspecified,
}

/// What a fallible operation reports when it fails, with either a built-in
/// reason or a payload `K` of the caller's own.
#[derive(Debug)]
pub enum Error<K> {
    /// Retryable, built-in reason.
    Transient(Details),
    /// Not retryable, built-in reason.
    Permanent(Details),
    /// Terminal: the attempt budget ran out.
    Exhausted(Details),
    /// Retryable, caller-defined payload.
    CustomTransient(K),
    /// Not retryable, caller-defined payload.
    CustomPermanent(K),
    /// Terminal, caller-defined payload.
    CustomExhausted(K),
}

impl<K> Error<K> {
    /// A failure is retryable exactly when it is `Transient` or
    /// `CustomTransient`.
    pub open spec fn retryable(self) -> bool {
        self is Transient || self is CustomTransient
    }

    /// A failure is terminal exactly when it is `Exhausted` or
    /// `CustomExhausted`.
    pub open spec fn terminal(self) -> bool {
        self is Exhausted || self is CustomExhausted
    }

    /// The escalation rule: the built-in variants become `Exhausted` with the
    /// same reason, the custom variants become `CustomExhausted` with the same
    /// payload.
    pub open spec fn escalated(self) -> Error<K> {
        match self {
            Error::Transient(d) => Error::Exhausted(d),
            Error::Permanent(d) => Error::Exhausted(d),
            Error::Exhausted(d) => Error::Exhausted(d),
            Error::CustomTransient(k) => Error::CustomExhausted(k),
            Error::CustomPermanent(k) => Error::CustomExhausted(k),
            Error::CustomExhausted(k) => Error::CustomExhausted(k),
        }
    }

    /// Whether this failure may be retried while budget remains.
    pub fn is_transient(&self) -> (r: bool)
        ensures
            r == self.retryable(),
    {
        match self {
            Error::Transient(_) | Error::CustomTransient(_) => true,
            _ => false,
        }
    }

    /// Whether this failure says that the attempt budget was spent.
    pub fn is_exhausted(&self) -> (r: bool)
        ensures
            r == self.terminal(),
    {
        match self {
            Error::Exhausted(_) | Error::CustomExhausted(_) => true,
            _ => false,
        }
    }

    /// Applies the escalation rule, which is used once the last attempt of a
    /// session has failed.
    pub fn escalate(self) -> (r: Error<K>)
        ensures
            r == self.escalated(),
    {
        match self {
            Error::Transient(d) => Error::Exhausted(d),
            Error::Permanent(d) | Error::Exhausted(d) => Error::Exhausted(d),
            Error::CustomPermanent(k) | Error::CustomExhausted(k) | Error::CustomTransient(k) => {
                Error::CustomExhausted(k)
            },
        }
    }
}

/// Escalation always yields a terminal failure.
pub proof fn lemma_escalated_is_terminal<K>(e: Error<K>)
    ensures
        e.escalated().terminal(),
        !e.escalated().retryable(),
{
}

/// Escalation leaves an already terminal failure unchanged, so applying it
/// twice is the same as applying it once.
pub proof fn lemma_escalated_idempotent<K>(e: Error<K>)
    ensures
        e.terminal() ==> e.escalated() == e,
        e.escalated().escalated() == e.escalated(),
{
}

} // verus!
