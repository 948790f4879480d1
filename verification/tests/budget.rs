use audio_thread_priority::budget::{compute, RealtimeBudget};

#[test]
fn budget_of_512_frames_at_44100_hz() {
    let budget = compute(512, 44100);
    assert_eq!(
        budget,
        RealtimeBudget { period: 11609, computation: 6965, constraint: 9867 }
    );
    assert_eq!(budget.max_slice_us(), 11609);
}

#[test]
fn budget_of_one_second() {
    let budget = compute(48000, 48000);
    assert_eq!(
        budget,
        RealtimeBudget { period: 1_000_000, computation: 600_000, constraint: 850_000 }
    );
}

#[test]
fn zero_frames_mean_fifty_milliseconds() {
    let budget = compute(0, 44100);
    assert_eq!(budget.period, 50_000);
    assert_eq!(budget.computation, 30_000);
    assert_eq!(budget.constraint, 42_500);
    assert_eq!(budget, compute(44100 / 20, 44100));
}

#[test]
fn zero_frames_equal_a_twentieth_of_the_rate() {
    let rates: [u32; 8] = [1, 19, 20, 39, 8000, 44100, 192000, u32::MAX];
    for rate in rates {
        assert_eq!(compute(0, rate), compute(rate / 20, rate));
    }
}

#[test]
fn zero_frames_at_a_rate_below_twenty() {
    let budget = compute(0, 19);
    assert_eq!(budget, RealtimeBudget { period: 0, computation: 0, constraint: 0 });
}

#[test]
fn budget_is_ordered() {
    let frames: [u32; 7] = [1, 2, 64, 128, 512, 4096, u32::MAX];
    let rates: [u32; 6] = [1, 8000, 44100, 48000, 192000, u32::MAX];
    for f in frames {
        for r in rates {
            let budget = compute(f, r);
            assert!(budget.computation <= budget.constraint);
            assert!(budget.constraint <= budget.period);
            let duration = f as u64 * 1_000_000 / r as u64;
            assert_eq!(budget.period, duration);
            assert_eq!(budget.computation > 0, duration >= 2);
            assert_eq!(budget.constraint > 0, duration >= 2);
        }
    }
}

#[test]
fn budget_of_the_largest_buffer_does_not_wrap() {
    let budget = compute(u32::MAX, 1);
    assert_eq!(budget.period, 4_294_967_295_000_000);
    assert_eq!(budget.computation, 2_576_980_377_000_000);
    assert_eq!(budget.constraint, 3_650_722_200_750_000);
}

#[test]
fn budget_of_one_microsecond_has_no_computation() {
    let budget = compute(1, 1_000_000);
    assert_eq!(budget, RealtimeBudget { period: 1, computation: 0, constraint: 0 });
    let budget = compute(2, 1_000_000);
    assert_eq!(budget, RealtimeBudget { period: 2, computation: 1, constraint: 1 });
}
