//! The policy of one retry session and its source of randomness.

use crate::backoff::capped;
use crate::backoff::Multiplier;
use crate::backoff::LONGEST_WAIT;
use crate::random::draw_bits;
use crate::span::span_nanos;
use crate::span::span_of;
use rand::rngs::ThreadRng;
use std::time::Duration;
use vstd::prelude::*;

verus! {

/// The policy of one retry session.
pub struct Settings<'a> {
    /// The most invocations of the operation in one session; at least one.
    pub attempts: u8,
    /// The wait before the second attempt, before jitter.
    pub initial_delay: Duration,
    /// The factor by which the wait grows with each further retry.
    pub backoff: Multiplier,
    /// A generator of the caller's to draw the jitter from. Without one the
    /// generator of the current thread is used.
    pub rng: Option<&'a mut ThreadRng>,
}

/// What the engine reads of the settings: the attempt budget, the initial
/// delay in nanoseconds and the multiplier.
pub struct Policy {
    pub attempts: nat,
    pub initial: nat,
    pub backoff: Multiplier,
}

impl Policy {
    /// A policy is well formed when it allows at least one attempt and at
    /// most as many as the settings can hold, its initial delay is no longer
    /// than the longest wait, and its multiplier is well formed.
    pub open spec fn wf(self) -> bool {
        &&& 1 <= self.attempts <= u8::MAX
        &&& self.initial <= LONGEST_WAIT
        &&& self.backoff.wf()
    }

    /// The policy of a session that is given no settings: five attempts,
    /// 100 ms before the second, each further wait twice the one before.
    pub open spec fn standard() -> Policy {
        Policy { attempts: 5, initial: 100_000_000, backoff: Multiplier { numerator: 2, denominator: 1 } }
    }
}

impl<'a> View for Settings<'a> {
    type V = Policy;

    /// The policy that the settings state. An initial delay beyond the
    /// longest wait counts as the longest wait.
    open spec fn view(&self) -> Policy {
        Policy {
            attempts: self.attempts as nat,
            initial: capped(span_nanos(self.initial_delay)),
            backoff: self.backoff,
        }
    }
}

impl<'a> Settings<'a> {
    /// Settings are well formed when their policy is: they allow at least
    /// one attempt, and the denominator of the multiplier is not zero.
    pub open spec fn wf(self) -> bool {
        self@.wf()
    }

    /// Two values of the settings state the same policy when they agree on
    /// everything but the state of the generator.
    pub open spec fn same_policy(self, other: Settings<'a>) -> bool {
        &&& self.attempts == other.attempts
        &&& self.initial_delay == other.initial_delay
        &&& self.backoff == other.backoff
        &&& (self.rng is Some) == (other.rng is Some)
    }

    /// Whether the settings are well formed.
    pub fn is_valid(&self) -> (valid: bool)
        ensures
            valid == self.wf(),
    {
        self.attempts >= 1 && self.backoff.denominator > 0
    }

    /// Draws 64 random bits: from the caller's generator where the settings
    /// hold one, else from the generator of the current thread. The policy is
    /// left as it was.
    pub fn draw(&mut self) -> (bits: u64)
        ensures
            final(self).same_policy(*old(self)),
    {
        match &mut self.rng {
            Some(rng) => draw_bits(rng),
            None => {
                let mut local = rand::thread_rng();
                draw_bits(&mut local)
            },
        }
    }
}

impl<'a> Default for Settings<'a> {
    /// Five attempts, 100 ms before the second, each further wait twice the
    /// one before, and the generator of the current thread.
    fn default() -> (settings: Self)
        ensures
            settings.attempts == 5,
            span_nanos(settings.initial_delay) == 100_000_000,
            settings.backoff == (Multiplier { numerator: 2, denominator: 1 }),
            settings.rng is None,
            settings.wf(),
            settings@ == Policy::standard(),
    {
        Settings {
            attempts: 5,
            initial_delay: span_of(100_000_000),
            backoff: Multiplier::whole(2),
            rng: None,
        }
    }
}

} // verus!
