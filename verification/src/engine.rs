//! The retry engine: what to do after each attempt of a session.
//!
//! A session stands at attempt `n`, counted from one. After every attempt the
//! engine either ends the session with a result, or names the wait after
//! which the operation is to be tried again.

use crate::backoff::base_wait;
use crate::backoff::grow;
use crate::backoff::grown;
use crate::backoff::jitter;
use crate::backoff::jittered;
use crate::backoff::lemma_jitter_band;
use crate::backoff::LONGEST_WAIT;
use crate::settings::Policy;
use crate::settings::Settings;
use crate::span::nanos_of;
use crate::taxonomy::Error;
use vstd::prelude::*;

verus! {

/// Where a session stands.
#[derive(Debug, Clone, Copy, PartialEq, Eq, Structural)]
pub struct Progress {
    /// The number of the attempt in progress, counted from one.
    pub attempt: u8,
    /// The wait before that attempt, without its jitter, in nanoseconds;
    /// zero at the first attempt.
    pub wait: u64,
}

/// What the engine decides after an attempt.
#[derive(Debug)]
pub enum Verdict<K, E> {
    /// The session is over, with this result.
    Done(Result<K, Error<E>>),
    /// The operation is to be tried again after a wait of so many
    /// nanoseconds, and the session then stands at `next`.
    Pause { nanos: u64, next: Progress },
}

impl Progress {
    /// The state in which every session starts: the first attempt, with no
    /// wait behind it.
    pub open spec fn start() -> Progress {
        Progress { attempt: 1, wait: 0 }
    }

    /// The state of a session at its attempt `attempt`, which it reaches by
    /// retries alone.
    pub open spec fn at(policy: Policy, attempt: nat) -> Progress {
        Progress {
            attempt: attempt as u8,
            wait: if attempt <= 1 {
                0
            } else {
                base_wait(policy.initial, policy.backoff, (attempt - 1) as nat) as u64
            },
        }
    }

    /// A state is within a policy when its attempt is one that the budget
    /// allows.
    pub open spec fn within(self, policy: Policy) -> bool {
        1 <= self.attempt <= policy.attempts
    }

    /// The state in which every session starts.
    pub fn first() -> (progress: Progress)
        ensures
            progress == Progress::start(),
    {
        Progress { attempt: 1, wait: 0 }
    }
}

/// How an attempt ends the session, if it does. A success ends it with the
/// value. A failure of the last attempt that the budget allows ends it with
/// the failure escalated. A failure of an earlier attempt ends it unchanged
/// unless it is retryable; after a retryable one the session goes on.
pub open spec fn settled<K, E>(
    policy: Policy,
    progress: Progress,
    outcome: Result<K, Error<E>>,
) -> Option<Result<K, Error<E>>> {
    match outcome {
        Ok(value) => Some(Ok(value)),
        Err(error) => if progress.attempt == policy.attempts {
            Some(Err(error.escalated()))
        } else if error.retryable() {
            None
        } else {
            Some(Err(error))
        },
    }
}

/// The wait, without jitter, that follows the attempt in progress: the
/// initial delay after the first attempt, and after a later one the wait
/// before it, grown by the multiplier.
pub open spec fn next_base(policy: Policy, progress: Progress) -> nat {
    if progress.attempt == 1 {
        policy.initial
    } else {
        grown(progress.wait as nat, policy.backoff)
    }
}

/// The wait after the attempt in progress, with the jitter of one draw.
pub open spec fn next_wait(policy: Policy, progress: Progress, draw: u64) -> nat {
    jittered(next_base(policy, progress), draw)
}

/// The state of the session at its next attempt.
pub open spec fn advanced(policy: Policy, progress: Progress) -> Progress {
    Progress { attempt: (progress.attempt + 1) as u8, wait: next_base(policy, progress) as u64 }
}

/// What the engine decides after an attempt, given the draw that it would
/// use for the jitter.
pub open spec fn decided<K, E>(
    policy: Policy,
    progress: Progress,
    outcome: Result<K, Error<E>>,
    draw: u64,
) -> Verdict<K, E> {
    match settled(policy, progress, outcome) {
        Some(result) => Verdict::Done(result),
        None => Verdict::Pause {
            nanos: next_wait(policy, progress, draw) as u64,
            next: advanced(policy, progress),
        },
    }
}

/// A wait that the engine names leads to an attempt that the budget allows,
/// and lies in the band around its base: it is at least three quarters of
/// the base, in whole nanoseconds, and less than five quarters of it unless
/// the base is zero. Neither exceeds the longest wait.
pub proof fn lemma_next_wait_in_band(policy: Policy, progress: Progress, draw: u64)
    requires
        policy.wf(),
        progress.attempt < policy.attempts,
    ensures
        advanced(policy, progress).within(policy),
        advanced(policy, progress).attempt == progress.attempt + 1,
        advanced(policy, progress).wait == next_base(policy, progress),
        next_base(policy, progress) <= LONGEST_WAIT,
        next_wait(policy, progress, draw) <= LONGEST_WAIT,
        (3 * next_base(policy, progress)) / 4 <= next_wait(policy, progress, draw),
        4 * next_wait(policy, progress, draw) <= 5 * next_base(policy, progress),
        next_base(policy, progress) > 0 ==> 4 * next_wait(policy, progress, draw) < 5 * next_base(
            policy,
            progress,
        ),
{
    lemma_jitter_band(next_base(policy, progress), draw);
}

/// Ends the session after an attempt, or returns `None` where the operation
/// is to be tried again.
pub fn settle<K, E>(settings: &Settings<'_>, progress: Progress, outcome: Result<K, Error<E>>) -> (result:
    Option<Result<K, Error<E>>>)
    ensures
        result == settled(settings@, progress, outcome),
{
    match outcome {
        Ok(value) => Some(Ok(value)),
        Err(error) => {
            if progress.attempt == settings.attempts {
                Some(Err(error.escalate()))
            } else if error.is_transient() {
                None
            } else {
                Some(Err(error))
            }
        },
    }
}

/// Computes the wait after the attempt in progress, with the jitter of the
/// given draw, and the state of the session at its next attempt.
pub fn schedule(settings: &Settings<'_>, progress: Progress, draw: u64) -> (plan: (u64, Progress))
    requires
        settings.wf(),
        progress.attempt < settings.attempts,
    ensures
        plan.0 == next_wait(settings@, progress, draw),
        plan.1 == advanced(settings@, progress),
{
    let base: u64 = if progress.attempt == 1 {
        nanos_of(settings.initial_delay)
    } else {
        grow(progress.wait, settings.backoff)
    };
    let nanos: u64 = jitter(base, draw);
    (nanos, Progress { attempt: progress.attempt + 1, wait: base })
}

/// Decides what follows an attempt, with `draw` for the jitter of the wait
/// where there is one.
pub fn decide<K, E>(
    settings: &Settings<'_>,
    progress: Progress,
    outcome: Result<K, Error<E>>,
    draw: u64,
) -> (verdict: Verdict<K, E>)
    requires
        settings.wf(),
        progress.within(settings@),
    ensures
        verdict == decided(settings@, progress, outcome, draw),
{
    match settle(settings, progress, outcome) {
        Some(result) => Verdict::Done(result),
        None => {
            let (nanos, next) = schedule(settings, progress, draw);
            Verdict::Pause { nanos, next }
        },
    }
}

/// Decides what follows an attempt, and where that is a wait, draws its
/// jitter from the generator of the settings. The policy is left as it was.
pub fn step<K, E>(settings: &mut Settings<'_>, progress: Progress, outcome: Result<K, Error<E>>) -> (verdict:
    Verdict<K, E>)
    requires
        old(settings).wf(),
        progress.within(old(settings)@),
    ensures
        final(settings).same_policy(*old(settings)),
        exists|draw: u64| verdict == decided(old(settings)@, progress, outcome, draw),
        settled(old(settings)@, progress, outcome) matches Some(result) ==> verdict == Verdict::<
            K,
            E,
        >::Done(result),
{
    match settle(settings, progress, outcome) {
        Some(result) => {
            assert(Verdict::Done(result) == decided(old(settings)@, progress, outcome, 0u64));
            Verdict::Done(result)
        },
        None => {
            let draw: u64 = settings.draw();
            let (nanos, next) = schedule(settings, progress, draw);
            assert(Verdict::<K, E>::Pause { nanos, next } == decided(old(settings)@, progress, outcome, draw));
            Verdict::Pause { nanos, next }
        },
    }
}

} // verus!
