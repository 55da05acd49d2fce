use retry_backoff::backoff::grow;
use retry_backoff::backoff::jitter;
use retry_backoff::backoff::FRACTION_STEPS;
use retry_backoff::backoff::JITTER_FLOOR;
use retry_backoff::backoff::JITTER_SCALE;
use retry_backoff::backoff::LONGEST_WAIT;
use retry_backoff::Multiplier;

#[test]
fn jitter_constants_are_powers_of_two() {
    assert_eq!(FRACTION_STEPS, 1u64 << 53);
    assert_eq!(JITTER_SCALE, 1u64 << 54);
    assert_eq!(JITTER_FLOOR, 3u64 << 52);
    assert_eq!(LONGEST_WAIT, u64::MAX);
}

#[test]
fn multiplier_new_refuses_zero_denominator() {
    assert_eq!(Multiplier::new(3, 0), None);
    assert_eq!(Multiplier::new(0, 0), None);
}

#[test]
fn multiplier_new_keeps_both_parts() {
    assert_eq!(Multiplier::new(3, 2), Some(Multiplier { numerator: 3, denominator: 2 }));
    assert_eq!(Multiplier::new(0, 1), Some(Multiplier { numerator: 0, denominator: 1 }));
}

#[test]
fn multiplier_whole_has_denominator_one() {
    assert_eq!(Multiplier::whole(2), Multiplier { numerator: 2, denominator: 1 });
}

#[test]
fn grow_doubles() {
    assert_eq!(grow(100_000_000, Multiplier::whole(2)), 200_000_000);
    assert_eq!(grow(200_000_000, Multiplier::whole(2)), 400_000_000);
}

#[test]
fn grow_by_a_ratio_rounds_down() {
    let half_again = Multiplier { numerator: 3, denominator: 2 };
    assert_eq!(grow(100, half_again), 150);
    assert_eq!(grow(101, half_again), 151);
    assert_eq!(grow(1, half_again), 1);
    assert_eq!(grow(10, Multiplier { numerator: 1, denominator: 3 }), 3);
}

#[test]
fn grow_by_zero_is_zero() {
    assert_eq!(grow(12345, Multiplier::whole(0)), 0);
    assert_eq!(grow(0, Multiplier::whole(7)), 0);
}

#[test]
fn grow_is_capped_at_the_longest_wait() {
    assert_eq!(grow(u64::MAX, Multiplier::whole(2)), LONGEST_WAIT);
    assert_eq!(grow(u64::MAX, Multiplier::whole(u64::MAX)), LONGEST_WAIT);
    assert_eq!(grow(1 << 63, Multiplier::whole(2)), LONGEST_WAIT);
    assert_eq!(grow((1 << 63) - 1, Multiplier::whole(2)), u64::MAX - 1);
}

#[test]
fn jitter_of_the_lowest_draw_is_three_quarters() {
    assert_eq!(jitter(100_000_000, 0), 75_000_000);
    assert_eq!(jitter(200_000_000, 0), 150_000_000);
    assert_eq!(jitter(4, 0), 3);
}

#[test]
fn jitter_of_the_highest_draw_stays_below_five_quarters() {
    assert_eq!(jitter(100_000_000, u64::MAX), 124_999_999);
    assert_eq!(jitter(200_000_000, u64::MAX), 249_999_999);
}

#[test]
fn jitter_of_the_middle_draw_is_the_base() {
    assert_eq!(jitter(100_000_000, 1 << 63), 100_000_000);
    assert_eq!(jitter(12_345, 1 << 63), 12_345);
}

#[test]
fn jitter_reads_only_the_upper_53_bits() {
    assert_eq!(jitter(1 << 60, 2047), jitter(1 << 60, 0));
    assert_ne!(jitter(1 << 60, 2048), jitter(1 << 60, 0));
    assert_eq!(jitter(1 << 60, 2048), (3 << 58) + 64);
}

#[test]
fn jitter_rounds_down() {
    assert_eq!(jitter(1, 0), 0);
    assert_eq!(jitter(1, u64::MAX), 1);
    assert_eq!(jitter(2, 0), 1);
    assert_eq!(jitter(3, 0), 2);
    assert_eq!(jitter(0, u64::MAX), 0);
}

#[test]
fn jitter_is_capped_at_the_longest_wait() {
    assert_eq!(jitter(u64::MAX, u64::MAX), LONGEST_WAIT);
    assert_eq!(jitter(u64::MAX, 1 << 63), LONGEST_WAIT);
    assert_eq!(jitter(u64::MAX, 0), (u64::MAX / 4) * 3 + 2);
}

#[test]
fn jitter_stays_in_the_band() {
    let bases = [1u64, 3, 4, 5, 999, 100_000_000, 1 << 40, u64::MAX / 2];
    let draws = [0u64, 1, 2047, 2048, 1 << 32, 1 << 63, (1 << 63) + 12345, u64::MAX - 2048, u64::MAX];
    for base in bases {
        for draw in draws {
            let wait = jitter(base, draw) as u128;
            let base = base as u128;
            assert!(3 * base / 4 <= wait);
            assert!(4 * wait < 5 * base);
        }
    }
}

#[test]
fn jitter_grows_with_the_draw() {
    let mut last = 0;
    for step in 0..64u64 {
        let wait = jitter(1_000_000_000, step << 58);
        assert!(wait >= last);
        last = wait;
    }
    assert!(last > 1_000_000_000);
}
