//! Whole sessions: what the engine makes of a sequence of outcomes, and the
//! laws that hold of it.

use crate::backoff::base_wait;
use crate::backoff::jittered;
use crate::backoff::lemma_jitter_band;
use crate::backoff::LONGEST_WAIT;
use crate::engine::advanced;
use crate::engine::decided;
use crate::engine::next_base;
use crate::engine::settled;
use crate::engine::Progress;
use crate::engine::Verdict;
use crate::settings::Policy;
use crate::taxonomy::Error;
use vstd::prelude::*;

verus! {

/// The course of a session.
pub struct Trace<K, E> {
    /// How often the operation was invoked.
    pub invocations: nat,
    /// The waits between the invocations, in nanoseconds, in order.
    pub waits: Seq<nat>,
    /// The result of the session; `None` where the outcomes ran out before
    /// the engine ended it.
    pub result: Option<Result<K, Error<E>>>,
}

/// The course of a session from the state `progress` on, where the attempt in
/// progress ends with `outcomes[index]`, the one after it with
/// `outcomes[index + 1]` and so on, and the jitter of the wait after
/// `outcomes[i]` is drawn as `draws[i]`.
pub open spec fn run_from<K, E>(
    policy: Policy,
    progress: Progress,
    outcomes: Seq<Result<K, Error<E>>>,
    draws: Seq<u64>,
    index: int,
) -> Trace<K, E>
    decreases outcomes.len() - index,
{
    if index < 0 || index >= outcomes.len() {
        Trace { invocations: 0, waits: Seq::empty(), result: None }
    } else {
        match decided(policy, progress, outcomes[index], draws[index]) {
            Verdict::Done(result) => Trace { invocations: 1, waits: Seq::empty(), result: Some(result) },
            Verdict::Pause { nanos, next } => {
                let rest = run_from(policy, next, outcomes, draws, index + 1);
                Trace {
                    invocations: rest.invocations + 1,
                    waits: seq![nanos as nat].add(rest.waits),
                    result: rest.result,
                }
            },
        }
    }
}

/// The course of a session in which the operation ends with `outcomes[0]` at
/// its first invocation, with `outcomes[1]` at its second and so on.
pub open spec fn run<K, E>(policy: Policy, outcomes: Seq<Result<K, Error<E>>>, draws: Seq<u64>) -> Trace<
    K,
    E,
> {
    run_from(policy, Progress::start(), outcomes, draws, 0)
}

/// An outcome after which the operation is tried again while budget remains.
pub open spec fn retryable_failure<K, E>(outcome: Result<K, Error<E>>) -> bool {
    outcome matches Err(error) && error.retryable()
}

/// The wait before attempt `retry + 1` of a session that reaches it, with the
/// jitter drawn for it.
pub open spec fn wait_before_next(policy: Policy, draws: Seq<u64>, retry: nat) -> nat
    recommends
        1 <= retry <= draws.len(),
{
    jittered(base_wait(policy.initial, policy.backoff, retry), draws[retry - 1])
}

/// A session that has come to an attempt by retries alone stands there in
/// the state `Progress::at`: the wait that follows is the growth curve's, and
/// the state at the next attempt is again `Progress::at`.
pub proof fn lemma_progress_follows(policy: Policy, attempt: nat)
    requires
        policy.wf(),
        1 <= attempt < policy.attempts,
    ensures
        next_base(policy, Progress::at(policy, attempt)) == base_wait(policy.initial, policy.backoff, attempt),
        base_wait(policy.initial, policy.backoff, attempt) <= LONGEST_WAIT,
        Progress::at(policy, attempt + 1) == advanced(policy, Progress::at(policy, attempt)),
{
}
/// The course of a session from its attempt `index + 1` on, where every
/// attempt before the last of `count` fails retryably and the last one ends
/// the session.
proof fn lemma_run_from_settles<K, E>(
    policy: Policy,
    outcomes: Seq<Result<K, Error<E>>>,
    draws: Seq<u64>,
    count: nat,
    index: nat,
)
    requires
        policy.wf(),
        index < count <= policy.attempts,
        count <= outcomes.len(),
        forall|i: int| 0 <= i < count - 1 ==> retryable_failure(#[trigger] outcomes[i]),
        count < policy.attempts ==> !retryable_failure(outcomes[count - 1]),
    ensures
        ({
            let trace = run_from(policy, Progress::at(policy, index + 1), outcomes, draws, index as int);
            &&& trace.invocations == count - index
            &&& trace.waits.len() == count - 1 - index
            &&& forall|i: int|
                0 <= i < count - 1 - index ==> #[trigger] trace.waits[i] == wait_before_next(
                    policy,
                    draws,
                    (index + i + 1) as nat,
                )
            &&& trace.result == settled(policy, Progress::at(policy, count), outcomes[count - 1])
            &&& trace.result is Some
        }),
    decreases count - index,
{
    if index + 1 < count {
        lemma_run_from_settles(policy, outcomes, draws, count, index + 1);
    }
}

/// The course of a session whose first `count - 1` attempts fail retryably
/// and whose attempt `count` ends it, by succeeding, by failing for good, or
/// by being the last that the budget allows: the operation is invoked `count`
/// times, with `count - 1` waits between the invocations, each the growth
/// curve's with its jitter, and the result is what the last attempt settles.
pub proof fn lemma_session_course<K, E>(
    policy: Policy,
    outcomes: Seq<Result<K, Error<E>>>,
    draws: Seq<u64>,
    count: nat,
)
    requires
        policy.wf(),
        1 <= count <= policy.attempts,
        count <= outcomes.len(),
        forall|i: int| 0 <= i < count - 1 ==> retryable_failure(#[trigger] outcomes[i]),
        count < policy.attempts ==> !retryable_failure(outcomes[count - 1]),
    ensures
        run(policy, outcomes, draws).invocations == count,
        run(policy, outcomes, draws).waits.len() == count - 1,
        forall|retry: int|
            1 <= retry < count ==> #[trigger] run(policy, outcomes, draws).waits[retry - 1]
                == wait_before_next(policy, draws, retry as nat),
        run(policy, outcomes, draws).result == settled(policy, Progress::at(policy, count), outcomes[count - 1]),
        run(policy, outcomes, draws).result is Some,
{
    lemma_run_from_settles(policy, outcomes, draws, count, 0);
}

/// The shape of the course from attempt `index + 1` on, whatever the
/// outcomes are.
proof fn lemma_run_from_shape<K, E>(
    policy: Policy,
    outcomes: Seq<Result<K, Error<E>>>,
    draws: Seq<u64>,
    index: nat,
)
    requires
        policy.wf(),
        index < policy.attempts,
    ensures
        ({
            let trace = run_from(policy, Progress::at(policy, index + 1), outcomes, draws, index as int);
            let end = index + trace.invocations;
            &&& end <= policy.attempts
            &&& index < outcomes.len() ==> end <= outcomes.len()
            &&& index >= outcomes.len() ==> trace.invocations == 0 && trace.result is None
            &&& forall|i: int| index <= i < end - 1 ==> retryable_failure(#[trigger] outcomes[i])
            &&& trace.result is Some ==> {
                &&& trace.invocations >= 1
                &&& trace.waits.len() == trace.invocations - 1
                &&& trace.result == settled(policy, Progress::at(policy, end), outcomes[end - 1])
            }
            &&& trace.result is None ==> {
                &&& trace.waits.len() == trace.invocations
                &&& index < outcomes.len() ==> end == outcomes.len()
                &&& forall|i: int| index <= i < end ==> retryable_failure(#[trigger] outcomes[i])
            }
        }),
    decreases outcomes.len() - index,
{
    if index < outcomes.len() {
        let progress = Progress::at(policy, index + 1);
        if settled(policy, progress, outcomes[index as int]) is None {
            lemma_run_from_shape(policy, outcomes, draws, index + 1);
        }
    }
}

/// The shape of every session. The operation is never invoked more often
/// than the budget allows. Every invocation but the last one has failed
/// retryably. Where the session has a result, it is what the last invocation
/// settles, and there is one wait fewer than invocations: nothing is waited
/// for after the attempt that ends the session. Where it has none, the
/// outcomes were all retryable failures and ran out before the budget did.
pub proof fn lemma_session_shape<K, E>(policy: Policy, outcomes: Seq<Result<K, Error<E>>>, draws: Seq<u64>)
    requires
        policy.wf(),
    ensures
        ({
            let trace = run(policy, outcomes, draws);
            &&& trace.invocations <= policy.attempts
            &&& trace.invocations <= outcomes.len()
            &&& forall|i: int| 0 <= i < trace.invocations - 1 ==> retryable_failure(#[trigger] outcomes[i])
            &&& trace.result is Some ==> {
                &&& trace.invocations >= 1
                &&& trace.waits.len() == trace.invocations - 1
                &&& trace.result == settled(
                    policy,
                    Progress::at(policy, trace.invocations),
                    outcomes[trace.invocations - 1],
                )
            }
            &&& trace.result is None ==> {
                &&& trace.invocations == outcomes.len()
                &&& trace.waits.len() == trace.invocations
                &&& forall|i: int| 0 <= i < outcomes.len() ==> retryable_failure(#[trigger] outcomes[i])
            }
        }),
{
    lemma_run_from_shape(policy, outcomes, draws, 0);
}

/// A failure that is `Permanent` or `CustomPermanent` ends the session at
/// once, whatever the budget: the operation is invoked exactly once and
/// nothing is waited for. The failure is returned as it is where budget was
/// left, and escalated where the budget was a single attempt.
pub proof fn lemma_permanent_failure_invoked_once<K, E>(
    policy: Policy,
    outcomes: Seq<Result<K, Error<E>>>,
    draws: Seq<u64>,
)
    requires
        policy.wf(),
        outcomes.len() >= 1,
        outcomes[0] matches Err(error) && (error is Permanent || error is CustomPermanent),
    ensures
        run(policy, outcomes, draws).invocations == 1,
        run(policy, outcomes, draws).waits.len() == 0,
        policy.attempts > 1 ==> run(policy, outcomes, draws).result == Some(outcomes[0]),
        policy.attempts == 1 ==> run(policy, outcomes, draws).result == Some(
            Err::<K, Error<E>>(outcomes[0]->Err_0.escalated()),
        ),
{
}

/// Where every attempt that the budget allows fails retryably, the operation
/// is invoked exactly as often as the budget allows, and the session ends
/// with the failure of the last attempt, escalated: `Exhausted` with the
/// reason of a `Transient`, `CustomExhausted` with the payload of a
/// `CustomTransient`.
pub proof fn lemma_transient_failures_exhaust_budget<K, E>(
    policy: Policy,
    outcomes: Seq<Result<K, Error<E>>>,
    draws: Seq<u64>,
)
    requires
        policy.wf(),
        outcomes.len() >= policy.attempts,
        forall|i: int| 0 <= i < policy.attempts ==> retryable_failure(#[trigger] outcomes[i]),
    ensures
        run(policy, outcomes, draws).invocations == policy.attempts,
        run(policy, outcomes, draws).waits.len() == policy.attempts - 1,
        run(policy, outcomes, draws).result == Some(
            Err::<K, Error<E>>(outcomes[policy.attempts - 1]->Err_0.escalated()),
        ),
        outcomes[policy.attempts - 1] matches Err(Error::Transient(reason)) ==> run(
            policy,
            outcomes,
            draws,
        ).result == Some(Err::<K, Error<E>>(Error::Exhausted(reason))),
        outcomes[policy.attempts - 1] matches Err(Error::CustomTransient(payload)) ==> run(
            policy,
            outcomes,
            draws,
        ).result == Some(Err::<K, Error<E>>(Error::CustomExhausted(payload))),
{
    lemma_session_course(policy, outcomes, draws, policy.attempts);
}

/// Where the operation succeeds at attempt `count`, after retryable failures
/// of all attempts before it, it is invoked exactly `count` times, the waits
/// are the `count - 1` before that attempt and none after it, and the
/// session ends with the value.
pub proof fn lemma_success_ends_session<K, E>(
    policy: Policy,
    outcomes: Seq<Result<K, Error<E>>>,
    draws: Seq<u64>,
    count: nat,
)
    requires
        policy.wf(),
        1 <= count <= policy.attempts,
        count <= outcomes.len(),
        forall|i: int| 0 <= i < count - 1 ==> retryable_failure(#[trigger] outcomes[i]),
        outcomes[count - 1] is Ok,
    ensures
        run(policy, outcomes, draws).invocations == count,
        run(policy, outcomes, draws).waits.len() == count - 1,
        run(policy, outcomes, draws).result == Some(outcomes[count - 1]),
{
    lemma_session_course(policy, outcomes, draws, count);
}

/// Every wait of a session lies in the band around the growth curve: the
/// wait before attempt `retry + 1` is at least three quarters of the base
/// `base_wait(.., retry)`, in whole nanoseconds, and less than five quarters
/// of it unless the base is zero.
pub proof fn lemma_waits_in_band<K, E>(
    policy: Policy,
    outcomes: Seq<Result<K, Error<E>>>,
    draws: Seq<u64>,
    count: nat,
    retry: nat,
)
    requires
        policy.wf(),
        1 <= count <= policy.attempts,
        count <= outcomes.len(),
        forall|i: int| 0 <= i < count - 1 ==> retryable_failure(#[trigger] outcomes[i]),
        count < policy.attempts ==> !retryable_failure(outcomes[count - 1]),
        1 <= retry < count,
    ensures
        ({
            let wait = run(policy, outcomes, draws).waits[retry - 1];
            let base = base_wait(policy.initial, policy.backoff, retry);
            &&& (3 * base) / 4 <= wait
            &&& 4 * wait <= 5 * base
            &&& base > 0 ==> 4 * wait < 5 * base
        }),
{
    lemma_session_course(policy, outcomes, draws, count);
    lemma_jitter_band(base_wait(policy.initial, policy.backoff, retry), draws[retry - 1]);
}

} // verus!
