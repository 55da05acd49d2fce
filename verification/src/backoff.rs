//! The backoff calculator: exponential growth of the wait between attempts,
//! and the jitter that spreads the retries of independent callers.
//!
//! Waits are whole nanoseconds. The multiplier is an exact ratio and the
//! jitter factor an exact multiple of 2^-54, so every wait is a floor of an
//! exact product, capped at the longest wait that the library issues.

use vstd::prelude::*;

verus! {

/// The longest wait that the library issues, in nanoseconds.
pub const LONGEST_WAIT: u64 = 0xffff_ffff_ffff_ffff;

/// The number of values that the random fraction of a draw can take: 2^53.
pub const FRACTION_STEPS: u64 = 0x20_0000_0000_0000;

/// The denominator of the jitter factor: 2^54.
pub const JITTER_SCALE: u64 = 0x40_0000_0000_0000;

/// The smallest numerator of the jitter factor: three quarters of
/// `JITTER_SCALE`.
pub const JITTER_FLOOR: u64 = 0x30_0000_0000_0000;

/// The factor by which the wait grows from one retry to the next, as the
/// ratio of two integers.
#[derive(Debug, Clone, Copy, PartialEq, Eq, Structural)]
pub struct Multiplier {
    pub numerator: u64,
    pub denominator: u64,
}

impl Multiplier {
    /// A multiplier is well formed when its denominator is not zero.
    pub open spec fn wf(self) -> bool {
        self.denominator > 0
    }

    /// The multiplier `numerator / denominator`, unless the denominator is
    /// zero.
    pub fn new(numerator: u64, denominator: u64) -> (made: Option<Multiplier>)
        ensures
            denominator == 0 ==> made is None,
            denominator > 0 ==> made == Some(Multiplier { numerator, denominator }),
    {
        if denominator == 0 {
            None
        } else {
            Some(Multiplier { numerator, denominator })
        }
    }

    /// The multiplier `times / 1`.
    pub fn whole(times: u64) -> (made: Multiplier)
        ensures
            made == (Multiplier { numerator: times, denominator: 1 }),
            made.wf(),
    {
        Multiplier { numerator: times, denominator: 1 }
    }
}

/// A number of nanoseconds, held to the longest wait.
pub open spec fn capped(nanos: nat) -> nat {
    if nanos > LONGEST_WAIT {
        LONGEST_WAIT as nat
    } else {
        nanos
    }
}

/// The wait that follows `base` on the growth curve: `base` times the
/// multiplier, rounded down and capped.
pub open spec fn grown(base: nat, backoff: Multiplier) -> nat {
    capped((base * (backoff.numerator as nat)) / (backoff.denominator as nat))
}

/// The un-jittered wait before attempt `retry + 1`: the initial delay before
/// the second attempt, and from then on the previous one grown by the
/// multiplier.
pub open spec fn base_wait(initial: nat, backoff: Multiplier, retry: nat) -> nat
    decreases retry,
{
    if retry <= 1 {
        capped(initial)
    } else {
        grown(base_wait(initial, backoff, (retry - 1) as nat), backoff)
    }
}

/// The random fraction that a draw of 64 bits stands for: its upper 53 bits,
/// read as a multiple of 2^-53 in `[0, 1)`.
pub open spec fn fraction(draw: u64) -> nat {
    (draw / 2048) as nat
}

/// The numerator of the jitter factor `fraction / 2 + 3/4` over
/// `JITTER_SCALE`.
pub open spec fn jitter_weight(draw: u64) -> nat {
    JITTER_FLOOR as nat + fraction(draw)
}

/// The wait with its jitter: `base` times the jitter factor of the draw,
/// rounded down and capped.
pub open spec fn jittered(base: nat, draw: u64) -> nat {
    capped((base * jitter_weight(draw)) / (JITTER_SCALE as nat))
}

/// Grows an un-jittered wait by the multiplier.
pub fn grow(base: u64, backoff: Multiplier) -> (next: u64)
    requires
        backoff.wf(),
    ensures
        next == grown(base as nat, backoff),
{
    assert(base * backoff.numerator <= 0xffff_ffff_ffff_ffff * 0xffff_ffff_ffff_ffff)
        by (nonlinear_arith)
        requires
            base <= 0xffff_ffff_ffff_ffff,
            backoff.numerator <= 0xffff_ffff_ffff_ffff,
    ;
    let product: u128 = (base as u128) * (backoff.numerator as u128);
    let scaled: u128 = product / (backoff.denominator as u128);
    if scaled > LONGEST_WAIT as u128 {
        LONGEST_WAIT
    } else {
        scaled as u64
    }
}

/// Applies the jitter of one draw to an un-jittered wait.
pub fn jitter(base: u64, draw: u64) -> (wait: u64)
    ensures
        wait == jittered(base as nat, draw),
{
    let weight: u64 = JITTER_FLOOR + draw / 2048;
    assert(base * weight <= 0xffff_ffff_ffff_ffff * 0x50_0000_0000_0000) by (nonlinear_arith)
        requires
            base <= 0xffff_ffff_ffff_ffff,
            weight <= 0x50_0000_0000_0000,
    ;
    let product: u128 = (base as u128) * (weight as u128);
    let scaled: u128 = product / (JITTER_SCALE as u128);
    if scaled > LONGEST_WAIT as u128 {
        LONGEST_WAIT
    } else {
        scaled as u64
    }
}

/// The random fraction of a draw is below one: it takes fewer than
/// `FRACTION_STEPS` values, so the jitter factor lies in `[3/4, 5/4)`.
pub proof fn lemma_jitter_factor_range(draw: u64)
    ensures
        fraction(draw) < FRACTION_STEPS,
        3 * JITTER_SCALE <= 4 * jitter_weight(draw),
        4 * jitter_weight(draw) < 5 * JITTER_SCALE,
{
}

/// The jittered wait lies in the band around its base: it is at least three
/// quarters of the base, in whole nanoseconds, and for a base that is not
/// zero it is less than five quarters of the base.
pub proof fn lemma_jitter_band(base: nat, draw: u64)
    requires
        base <= LONGEST_WAIT,
    ensures
        (3 * base) / 4 <= jittered(base, draw),
        4 * jittered(base, draw) <= 5 * base,
        base > 0 ==> 4 * jittered(base, draw) < 5 * base,
        jittered(base, draw) <= LONGEST_WAIT,
{
    let weight = jitter_weight(draw) as int;
    let scale = JITTER_SCALE as int;
    let exact = (base * weight) / scale;
    assert(0 <= base * weight) by (nonlinear_arith)
        requires
            0 <= base,
            0 <= weight,
    ;
    assert(scale * exact <= base * weight < scale * exact + scale) by (nonlinear_arith)
        requires
            exact == (base * weight) / scale,
            scale > 0,
    ;
    // From 3 * scale <= 4 * weight: scale * (3 * base) <= 4 * (base * weight).
    assert(scale * (3 * base) <= 4 * (base * weight)) by (nonlinear_arith)
        requires
            3 * scale <= 4 * weight,
            0 <= base,
    ;
    assert(4 * (base * weight) <= scale * (5 * base)) by (nonlinear_arith)
        requires
            4 * weight < 5 * scale,
            0 <= base,
    ;
    assert(base > 0 ==> 4 * (base * weight) + 4 * base <= scale * (5 * base)) by (nonlinear_arith)
        requires
            4 * weight + 4 <= 5 * scale,
            0 <= base,
    ;
    assert(3 * base < 4 * exact + 4) by (nonlinear_arith)
        requires
            scale * (3 * base) <= 4 * (base * weight),
            base * weight < scale * exact + scale,
            scale > 0,
    ;
    assert(4 * exact <= 5 * base) by (nonlinear_arith)
        requires
            4 * (base * weight) <= scale * (5 * base),
            scale * exact <= base * weight,
            scale > 0,
    ;
    assert(base > 0 ==> 4 * exact < 5 * base) by (nonlinear_arith)
        requires
            base > 0 ==> 4 * (base * weight) + 4 * base <= scale * (5 * base),
            scale * exact <= base * weight,
            scale > 0,
            0 <= base,
    ;
}

/// The growth curve: the base before the second attempt is the initial
/// delay, each later base is the previous one times the multiplier, and none
/// exceeds the longest wait.
pub proof fn lemma_base_wait_curve(initial: nat, backoff: Multiplier, retry: nat)
    ensures
        base_wait(initial, backoff, 1) == capped(initial),
        retry > 1 ==> base_wait(initial, backoff, retry) == grown(
            base_wait(initial, backoff, (retry - 1) as nat),
            backoff,
        ),
        base_wait(initial, backoff, retry) <= LONGEST_WAIT,
{
}

} // verus!
