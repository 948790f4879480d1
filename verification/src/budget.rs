use vstd::prelude::*;

verus! {

/// Microseconds in one second.
pub const MICROS_PER_SECOND: u64 = 1_000_000;

/// The part of a second, as a divisor, that stands in for a buffer size of zero.
pub const DEFAULT_BUFFER_DIVISOR: u32 = 20;

/// Time that one audio callback may take, in microseconds.
#[derive(Clone, Copy, Debug, PartialEq, Eq, Structural)]
pub struct RealtimeBudget {
    /// Time between two callbacks.
    pub period: u64,
    /// Time the callback is expected to compute.
    pub computation: u64,
    /// Time within which the computation has to end.
    pub constraint: u64,
}

/// The number of frames a callback renders: `buffer_frames`, or a twentieth
/// of a second of audio where the caller names none.
pub open spec fn effective_frames(buffer_frames: u32, sample_rate_hz: u32) -> int {
    if buffer_frames == 0 {
        sample_rate_hz as int / 20
    } else {
        buffer_frames as int
    }
}

/// The whole microseconds that `effective_frames` frames last.
pub open spec fn callback_duration_us(buffer_frames: u32, sample_rate_hz: u32) -> int
    recommends
        sample_rate_hz > 0,
{
    effective_frames(buffer_frames, sample_rate_hz) * 1_000_000 / (sample_rate_hz as int)
}

/// The budget of a callback: the period is its duration, the computation six
/// tenths of it and the constraint eighty-five hundredths, each rounded down.
pub open spec fn budget_of(buffer_frames: u32, sample_rate_hz: u32) -> RealtimeBudget
    recommends
        sample_rate_hz > 0,
{
    let duration = callback_duration_us(buffer_frames, sample_rate_hz);
    RealtimeBudget {
        period: duration as u64,
        computation: (duration * 6 / 10) as u64,
        constraint: (duration * 85 / 100) as u64,
    }
}

impl RealtimeBudget {
    /// The three times are ordered: computation, then constraint, then period.
    pub open spec fn ordered(&self) -> bool {
        self.computation <= self.constraint <= self.period
    }

    /// No time is zero.
    pub open spec fn positive(&self) -> bool {
        0 < self.computation && 0 < self.constraint && 0 < self.period
    }

    /// The longest slice of real-time execution that one callback needs.
    pub fn max_slice_us(&self) -> (slice: u64)
        ensures
            slice == self.period,
    {
        self.period
    }
}

/// The duration of a callback is a whole number of microseconds below 2^32 * 10^6.
pub proof fn lemma_duration_bounds(buffer_frames: u32, sample_rate_hz: u32)
    requires
        sample_rate_hz > 0,
    ensures
        0 <= callback_duration_us(buffer_frames, sample_rate_hz) <= effective_frames(
            buffer_frames,
            sample_rate_hz,
        ) * 1_000_000,
        0 <= effective_frames(buffer_frames, sample_rate_hz) <= u32::MAX,
{
    let frames = effective_frames(buffer_frames, sample_rate_hz);
    let rate = sample_rate_hz as int;
    assert(0 <= frames <= u32::MAX);
    assert(0 <= frames * 1_000_000 / rate <= frames * 1_000_000) by (nonlinear_arith)
        requires
            0 <= frames,
            rate >= 1,
    ;
}

/// Converts a buffer size and a sample rate into the time budget of one callback.
pub fn compute(buffer_frames: u32, sample_rate_hz: u32) -> (budget: RealtimeBudget)
    requires
        sample_rate_hz > 0,
    ensures
        budget == budget_of(buffer_frames, sample_rate_hz),
        budget.period == callback_duration_us(buffer_frames, sample_rate_hz),
        budget.computation == callback_duration_us(buffer_frames, sample_rate_hz) * 6 / 10,
        budget.constraint == callback_duration_us(buffer_frames, sample_rate_hz) * 85 / 100,
        budget.ordered(),
        budget.positive() <==> callback_duration_us(buffer_frames, sample_rate_hz) >= 2,
{
    let frames: u32 = if buffer_frames == 0 {
        sample_rate_hz / DEFAULT_BUFFER_DIVISOR
    } else {
        buffer_frames
    };
    proof {
        lemma_duration_bounds(buffer_frames, sample_rate_hz);
    }
    let duration: u64 = frames as u64 * MICROS_PER_SECOND / (sample_rate_hz as u64);
    RealtimeBudget {
        period: duration,
        computation: duration * 6 / 10,
        constraint: duration * 85 / 100,
    }
}

/// Whatever the buffer size and the sample rate, the computation ends within
/// the constraint and the constraint within the period. No time is zero exactly
/// when the callback lasts two microseconds or more.
pub proof fn lemma_budget_ordered(buffer_frames: u32, sample_rate_hz: u32)
    requires
        sample_rate_hz > 0,
    ensures
        budget_of(buffer_frames, sample_rate_hz).ordered(),
        budget_of(buffer_frames, sample_rate_hz).positive() <==> callback_duration_us(
            buffer_frames,
            sample_rate_hz,
        ) >= 2,
        buffer_frames > 0 && buffer_frames as int * 1_000_000 >= 2 * sample_rate_hz as int
            ==> budget_of(buffer_frames, sample_rate_hz).positive(),
{
    lemma_duration_bounds(buffer_frames, sample_rate_hz);
    let duration = callback_duration_us(buffer_frames, sample_rate_hz);
    if buffer_frames > 0 && buffer_frames as int * 1_000_000 >= 2 * sample_rate_hz as int {
        let frames = buffer_frames as int;
        let rate = sample_rate_hz as int;
        assert(frames * 1_000_000 / rate >= 2) by (nonlinear_arith)
            requires
                rate > 0,
                frames * 1_000_000 >= 2 * rate,
        ;
    }
}

/// A buffer size of zero gives the budget of a twentieth of a second of audio.
pub proof fn lemma_zero_frames_default(sample_rate_hz: u32)
    requires
        sample_rate_hz > 0,
    ensures
        budget_of(0, sample_rate_hz) == budget_of(
            (sample_rate_hz / DEFAULT_BUFFER_DIVISOR) as u32,
            sample_rate_hz,
        ),
        callback_duration_us(0, sample_rate_hz) <= 50_000,
        sample_rate_hz % DEFAULT_BUFFER_DIVISOR == 0 ==> callback_duration_us(0, sample_rate_hz)
            == 50_000,
{
    let rate = sample_rate_hz as int;
    let frames = rate / 20;
    assert(effective_frames(0, sample_rate_hz) == frames);
    assert(effective_frames((sample_rate_hz / DEFAULT_BUFFER_DIVISOR) as u32, sample_rate_hz)
        == frames);
    assert(frames * 1_000_000 / rate <= 50_000) by (nonlinear_arith)
        requires
            rate > 0,
            0 <= 20 * frames <= rate,
    ;
    if sample_rate_hz % DEFAULT_BUFFER_DIVISOR == 0 {
        assert(frames * 1_000_000 / rate == 50_000) by (nonlinear_arith)
            requires
                rate > 0,
                20 * frames == rate,
        ;
    }
}

} // verus!
