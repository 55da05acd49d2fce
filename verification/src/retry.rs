//! The retry loop for callers that wait by a call of their own.

use crate::backoff::base_wait;
use crate::backoff::jittered;
use crate::engine::decided;
use crate::engine::step;
use crate::engine::Progress;
use crate::engine::Verdict;
use crate::session::lemma_session_course;
use crate::session::lemma_session_shape;
use crate::session::retryable_failure;
use crate::session::run;
use crate::settings::Policy;
use crate::settings::Settings;
use crate::span::span_nanos;
use crate::span::span_of;
use crate::taxonomy::Error;
use std::time::Duration;
use vstd::prelude::*;

verus! {

/// What a session makes of an operation: `result` is the result of a session
/// under `policy` in which the operation produced `outcomes`, one at each of
/// its invocations and no more, and `draws` were drawn for the jitter, one
/// for each wait.
pub open spec fn session_of<F, K, E>(
    func: F,
    policy: Policy,
    outcomes: Seq<Result<K, Error<E>>>,
    draws: Seq<u64>,
    result: Result<K, Error<E>>,
) -> bool where F: Fn() -> Result<K, Error<E>> {
    &&& 1 <= outcomes.len() <= policy.attempts
    &&& draws.len() + 1 == outcomes.len()
    &&& forall|i: int| 0 <= i < outcomes.len() ==> call_ensures(func, (), #[trigger] outcomes[i])
    &&& run(policy, outcomes, draws).invocations == outcomes.len()
    &&& run(policy, outcomes, draws).waits.len() == draws.len()
    &&& run(policy, outcomes, draws).result == Some(result)
}

/// A wait that a session under the policy can name: the wait before one of
/// its attempts after the first, with the jitter of some draw.
pub open spec fn session_wait(policy: Policy, nanos: nat) -> bool {
    exists|retry: nat, draw: u64|
        1 <= retry < policy.attempts && nanos == #[trigger] jittered(
            base_wait(policy.initial, policy.backoff, retry),
            draw,
        )
}

/// Where the result of a session comes from. A success is a value that the
/// operation returned at its last invocation. A failure is the one that the
/// operation returned at its last invocation: escalated where that
/// invocation was the last that the budget allows, and else unchanged, and
/// then it was not retryable.
pub proof fn lemma_session_result<F, K, E>(
    func: F,
    policy: Policy,
    outcomes: Seq<Result<K, Error<E>>>,
    draws: Seq<u64>,
    result: Result<K, Error<E>>,
) where F: Fn() -> Result<K, Error<E>>
    requires
        policy.wf(),
        session_of(func, policy, outcomes, draws, result),
    ensures
        call_ensures(func, (), outcomes.last()),
        result is Ok ==> outcomes.last() == result,
        result matches Err(error) ==> outcomes.last() matches Err(last) && if outcomes.len() == policy.attempts {
            error == last.escalated()
        } else {
            error == last && !last.retryable()
        },
        forall|i: int| 0 <= i < outcomes.len() - 1 ==> retryable_failure(#[trigger] outcomes[i]),
{
    lemma_session_shape(policy, outcomes, draws);
}

/// Runs a session under the given settings: invokes `func` until the engine
/// ends the session, and calls `pause` with each wait that the engine names,
/// and with nothing else. The jitter is drawn from the generator of the
/// settings, whose policy is left as it was.
pub fn retry_with<F, P, K, E>(func: F, pause: P, settings: &mut Settings<'_>) -> (result: Result<
    K,
    Error<E>,
>) where F: Fn() -> Result<K, Error<E>>, P: Fn(Duration)
    requires
        old(settings).wf(),
        call_requires(func, ()),
        forall|span: Duration|
            session_wait(old(settings)@, span_nanos(span)) ==> call_requires(pause, (span,)),
    ensures
        final(settings).same_policy(*old(settings)),
        exists|outcomes: Seq<Result<K, Error<E>>>, draws: Seq<u64>|
            session_of(func, old(settings)@, outcomes, draws, result),
{
    let ghost policy = settings@;
    let ghost mut outcomes: Seq<Result<K, Error<E>>> = Seq::empty();
    let ghost mut draws: Seq<u64> = Seq::empty();
    let mut progress = Progress::first();
    loop
        invariant
            settings.wf(),
            settings.same_policy(*old(settings)),
            settings@ == policy,
            policy == old(settings)@,
            call_requires(func, ()),
            forall|span: Duration| session_wait(policy, span_nanos(span)) ==> call_requires(pause, (span,)),
            progress == Progress::at(policy, outcomes.len() + 1),
            outcomes.len() < policy.attempts,
            draws.len() == outcomes.len(),
            forall|i: int| 0 <= i < outcomes.len() ==> call_ensures(func, (), #[trigger] outcomes[i]),
            forall|i: int| 0 <= i < outcomes.len() ==> retryable_failure(#[trigger] outcomes[i]),
        decreases policy.attempts - outcomes.len(),
    {
        let outcome = func();
        let ghost seen = outcome;
        let ghost before = progress;
        match step(settings, progress, outcome) {
            Verdict::Done(result) => {
                proof {
                    let all = outcomes.push(seen);
                    let count = all.len();
                    lemma_session_course(policy, all, draws, count);
                    assert(session_of(func, policy, all, draws, result));
                }
                return result;
            },
            Verdict::Pause { nanos, next } => {
                proof {
                    let draw = choose|draw: u64|
                        Verdict::<K, E>::Pause { nanos, next } == decided(policy, before, seen, draw);
                    outcomes = outcomes.push(seen);
                    draws = draws.push(draw);
                    assert(nanos == jittered(base_wait(policy.initial, policy.backoff, outcomes.len()), draw));
                }
                pause(span_of(nanos));
                progress = next;
            },
        }
    }
}

/// Runs a session: invokes `func` until it succeeds, fails for good, or has
/// failed as often as the settings allow, and calls `pause` with the wait
/// before each further invocation, and with nothing else. Without settings
/// the session runs under the standard policy and draws from the generator
/// of the current thread.
pub fn retry<F, P, K, E>(func: F, pause: P, settings: Option<&mut Settings<'_>>) -> (result: Result<
    K,
    Error<E>,
>) where F: Fn() -> Result<K, Error<E>>, P: Fn(Duration)
    requires
        settings matches Some(given) ==> given.wf(),
        call_requires(func, ()),
        forall|span: Duration|
            session_wait(
                match settings {
                    Some(given) => given@,
                    None => Policy::standard(),
                },
                span_nanos(span),
            ) ==> call_requires(pause, (span,)),
    ensures
        settings matches Some(given) ==> final(given).same_policy(*given) && exists|
            outcomes: Seq<Result<K, Error<E>>>,
            draws: Seq<u64>,
        | session_of(func, given@, outcomes, draws, result),
        settings is None ==> exists|outcomes: Seq<Result<K, Error<E>>>, draws: Seq<u64>|
            session_of(func, Policy::standard(), outcomes, draws, result),
{
    match settings {
        Some(given) => retry_with(func, pause, given),
        None => {
            let mut standard = Settings::default();
            retry_with(func, pause, &mut standard)
        },
    }
}

} // verus!
