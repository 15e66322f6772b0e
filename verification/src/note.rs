//! The character of a note.
//!
//! A note is asked for by its frequency and the velocity of the pluck.
//! From these and the sample rate follow the length of the delay line, the
//! position and the weight of the pluck, how long the note sustains and
//! how strong its attack is, and, together with a tone, the coefficients of
//! the filters in the feedback loop.
//!
//! Frequencies are whole millihertz.  Everything else that is not a count
//! or a position is a fixed-point number.

use vstd::prelude::*;
use vstd::arithmetic::div_mod::lemma_div_is_ordered_by_denominator;
use crate::fixed::{
    clamp, clamp_of, div_round, lemma_round_div_monotone, ratio_of, round_div, scale, scale_of,
    ONE,
};

verus! {

/// Shortest delay line that can ring.
pub const MIN_DELAY: usize = 2;

/// Longest delay line: the period of the lowest note at the highest sample
/// rate.
pub const MAX_DELAY: usize = 214_748_364;

/// Lowest frequency of a note, in millihertz; a lower one is raised to it.
pub const MIN_FREQUENCY: u32 = 20_000;

/// Frequency at and below which a note counts as lowest in pitch.
pub const PITCH_LOW: u32 = 82_000;

/// Frequency at and above which a note counts as highest in pitch.
pub const PITCH_HIGH: u32 = 330_000;

/// Largest fractional delay.
pub const FRAC_MAX: u32 = 999_000_000;

/// Sustain of the highest notes.
pub const SUSTAIN_MIN: u32 = 995_000_000;

/// Sustain of the lowest notes.
pub const SUSTAIN_MAX: u32 = 999_800_000;

/// Smallest share of the pluck in the brightness.
pub const PLUCK_MIX_MIN: u32 = 50_000_000;

/// Largest share of the pluck in the brightness.
pub const PLUCK_MIX_MAX: u32 = 700_000_000;

/// Pluck position of the hardest pluck, as a share of the delay line.
pub const PICK_RATIO_MIN: u32 = 100_000_000;

/// Pluck position of the softest pluck, as a share of the delay line.
pub const PICK_RATIO_MAX: u32 = 850_000_000;

/// The frequency of a note asked for at `raw` millihertz.
pub open spec fn frequency_of(raw: u32) -> u32 {
    if raw < MIN_FREQUENCY {
        MIN_FREQUENCY
    } else {
        raw
    }
}

/// The velocity of a pluck asked for at velocity `raw`: at most one.
pub open spec fn velocity_of(raw: u32) -> u32 {
    if raw > ONE {
        ONE
    } else {
        raw
    }
}

/// The sample rate that the periods are computed from: at least one hertz.
pub open spec fn effective_rate(sample_rate: u32) -> int {
    if sample_rate < 1 {
        1
    } else {
        sample_rate as int
    }
}

/// Whole samples in one period of `frequency` millihertz.
pub open spec fn period_of(sample_rate: u32, frequency: u32) -> int {
    (effective_rate(sample_rate) * 1000) / (frequency as int)
}

/// Length of the delay line: the whole period, and at least `MIN_DELAY`.
pub open spec fn delay_length_of(sample_rate: u32, frequency: u32) -> int {
    if period_of(sample_rate, frequency) < MIN_DELAY {
        MIN_DELAY as int
    } else {
        period_of(sample_rate, frequency)
    }
}

/// Fractional delay: what the period exceeds the delay line by, at most
/// `FRAC_MAX`, and zero where the period is shorter than the delay line.
pub open spec fn frac_delay_of(sample_rate: u32, frequency: u32) -> int {
    if period_of(sample_rate, frequency) < MIN_DELAY {
        0
    } else {
        let rest = (effective_rate(sample_rate) * 1000) % (frequency as int);
        let frac = ratio_of(rest, frequency as int);
        if frac > FRAC_MAX {
            FRAC_MAX as int
        } else {
            frac
        }
    }
}

/// Where a frequency lies between `PITCH_LOW` (zero) and `PITCH_HIGH` (one).
pub open spec fn pitch_position_of(frequency: u32) -> int {
    if frequency <= PITCH_LOW {
        0
    } else if frequency >= PITCH_HIGH {
        ONE as int
    } else {
        ratio_of(frequency - PITCH_LOW, PITCH_HIGH - PITCH_LOW)
    }
}

/// Sustain at a pitch position: `0.995 + 0.006 * (1 - position)`, at most
/// `SUSTAIN_MAX`.
pub open spec fn sustain_of(position: int) -> int {
    let raw = 995_000_000 + scale_of(6_000_000, ONE - position);
    if raw > SUSTAIN_MAX {
        SUSTAIN_MAX as int
    } else {
        raw
    }
}

/// Pluck position as a share of the delay line:
/// `0.18 + 0.60 * (1 - velocity)`, within
/// `[PICK_RATIO_MIN, PICK_RATIO_MAX]`.
pub open spec fn pick_ratio_of(velocity: int) -> int {
    clamp_of(
        180_000_000 + scale_of(600_000_000, ONE - velocity),
        PICK_RATIO_MIN,
        PICK_RATIO_MAX,
    ) as int
}

/// Largest pluck position on a delay line of `delay_len` samples.
pub open spec fn max_pluck_of(delay_len: int) -> int {
    if delay_len >= 2 {
        delay_len - 1
    } else {
        1
    }
}

/// Pluck position on a delay line of `delay_len` samples: the share of the
/// line that the velocity gives, rounded, and within
/// `[1, max_pluck_of(delay_len)]`.
pub open spec fn pluck_offset_of(delay_len: int, velocity: int) -> int {
    let raw = round_div(delay_len * pick_ratio_of(velocity), ONE as int);
    if raw < 1 {
        1
    } else if raw > max_pluck_of(delay_len) {
        max_pluck_of(delay_len)
    } else {
        raw
    }
}

/// Share of the pluck in the brightness: `0.15 + 0.35 * velocity`, within
/// `[PLUCK_MIX_MIN, PLUCK_MIX_MAX]`.
pub open spec fn pluck_mix_of(velocity: int) -> int {
    clamp_of(150_000_000 + scale_of(350_000_000, velocity), PLUCK_MIX_MIN, PLUCK_MIX_MAX) as int
}

/// Attack envelope at the onset:
/// `velocity * (0.03 + 0.03 * (1 - position))`.
pub open spec fn onset_envelope_of(velocity: int, position: int) -> int {
    scale_of(velocity, 30_000_000 + scale_of(30_000_000, ONE - position))
}

/// Weight of the excitation at sample `index` of a delay line of
/// `delay_len` samples plucked at `pick`: a triangle that is one at the
/// pluck and falls by `2.5` over the length of the line, never under zero.
pub open spec fn pluck_shape_of(index: int, pick: int, delay_len: int) -> int {
    let distance = if index >= pick {
        index - pick
    } else {
        pick - index
    };
    let fall = round_div(2_500_000_000 * distance, delay_len);
    if fall >= ONE {
        0
    } else {
        ONE - fall
    }
}

/// All-pass coefficient: `dispersion * (0.15 + 0.25 * position)`, at most
/// `0.35`.
pub open spec fn dispersion_of(dispersion: int, position: int) -> int {
    clamp_of(
        scale_of(dispersion, 150_000_000 + scale_of(250_000_000, position)),
        0,
        350_000_000,
    ) as int
}

/// Brightness of a voice:
/// `brightness + 0.45 * position + 0.30 * pluck_mix`, at most one.
pub open spec fn brightness_of(brightness: int, position: int, pluck_mix: int) -> int {
    clamp_of(
        brightness + scale_of(450_000_000, position) + scale_of(300_000_000, pluck_mix),
        0,
        ONE,
    ) as int
}

/// Feedback gain of a voice:
/// `(decay + 0.0025 * (1 - position)) * sustain`.
pub open spec fn decay_of(decay: int, position: int, sustain: int) -> int {
    scale_of(decay + scale_of(2_500_000, ONE - position), sustain)
}

/// Factor on the attack envelope: `attack_decay - 0.004 * position`,
/// within `[0.97, 0.993]`.
pub open spec fn attack_decay_of(attack_decay: int, position: int) -> int {
    clamp_of(attack_decay - scale_of(4_000_000, position), 970_000_000, 993_000_000) as int
}

/// Weight of the attack noise: `0.45 + 0.35 * position`.
pub open spec fn attack_shape_of(position: int) -> int {
    450_000_000 + scale_of(350_000_000, position)
}

/// The frequency of a note asked for at `raw` millihertz.
pub fn note_frequency(raw: u32) -> (frequency: u32)
    ensures
        frequency == frequency_of(raw),
        frequency >= MIN_FREQUENCY,
{
    if raw < MIN_FREQUENCY {
        MIN_FREQUENCY
    } else {
        raw
    }
}

/// The velocity of a pluck asked for at velocity `raw`.
pub fn note_velocity(raw: u32) -> (velocity: u32)
    ensures
        velocity == velocity_of(raw),
        velocity <= ONE,
{
    if raw > ONE {
        ONE
    } else {
        raw
    }
}

/// Where `frequency` lies between `PITCH_LOW` and `PITCH_HIGH`.
pub fn pitch_position(frequency: u32) -> (position: u32)
    ensures
        position == pitch_position_of(frequency),
        position <= ONE,
{
    proof {
        lemma_pitch_position_range(frequency);
    }
    if frequency <= PITCH_LOW {
        0
    } else if frequency >= PITCH_HIGH {
        ONE
    } else {
        let above: u64 = (frequency - PITCH_LOW) as u64;
        let position: u64 = div_round(above * (ONE as u64), (PITCH_HIGH - PITCH_LOW) as u64);
        position as u32
    }
}

/// Length of the delay line and fractional delay for a note of `frequency`
/// millihertz at `sample_rate` hertz.
pub fn delay_for(sample_rate: u32, frequency: u32) -> (delay: (usize, u32))
    requires
        frequency >= MIN_FREQUENCY,
    ensures
        delay.0 == delay_length_of(sample_rate, frequency),
        delay.1 == frac_delay_of(sample_rate, frequency),
        MIN_DELAY <= delay.0 <= MAX_DELAY,
        delay.1 <= FRAC_MAX,
{
    proof {
        lemma_pluck_ranges(sample_rate, frequency, 0);
    }
    let rate: u64 = if sample_rate < 1 {
        1
    } else {
        sample_rate as u64
    };
    let rate_ms: u64 = rate * 1000;
    let period: u64 = rate_ms / (frequency as u64);
    if period < 2 {
        (MIN_DELAY, 0)
    } else {
        let rest: u64 = rate_ms % (frequency as u64);
        let frac: u64 = div_round(rest * (ONE as u64), frequency as u64);
        let frac: u32 = if frac > FRAC_MAX as u64 {
            FRAC_MAX
        } else {
            frac as u32
        };
        (period as usize, frac)
    }
}

/// Sustain of a note at pitch position `position`.
pub fn sustain_at(position: u32) -> (sustain: u32)
    requires
        position <= ONE,
    ensures
        sustain == sustain_of(position as int),
        SUSTAIN_MIN <= sustain <= SUSTAIN_MAX,
{
    let raw: u64 = 995_000_000 + scale(6_000_000, ONE - position);
    if raw > SUSTAIN_MAX as u64 {
        SUSTAIN_MAX
    } else {
        raw as u32
    }
}

/// Pluck position of a pluck at `velocity` on a delay line of `delay_len`
/// samples.
pub fn pluck_offset(delay_len: usize, velocity: u32) -> (offset: usize)
    requires
        MIN_DELAY <= delay_len <= MAX_DELAY,
        velocity <= ONE,
    ensures
        offset == pluck_offset_of(delay_len as int, velocity as int),
        1 <= offset < delay_len,
{
    let ratio: u32 = clamp(
        180_000_000 + scale(600_000_000, ONE - velocity),
        PICK_RATIO_MIN,
        PICK_RATIO_MAX,
    );
    assert(delay_len * ratio <= MAX_DELAY * PICK_RATIO_MAX) by (nonlinear_arith)
        requires
            0 <= delay_len <= MAX_DELAY,
            0 <= ratio <= PICK_RATIO_MAX,
    ;
    let raw: u64 = div_round((delay_len as u64) * (ratio as u64), ONE as u64);
    let top: u64 = (delay_len - 1) as u64;
    if raw < 1 {
        1
    } else if raw > top {
        delay_len - 1
    } else {
        raw as usize
    }
}

/// Share of the pluck in the brightness of a note plucked at `velocity`.
pub fn pluck_mix(velocity: u32) -> (mix: u32)
    requires
        velocity <= ONE,
    ensures
        mix == pluck_mix_of(velocity as int),
        PLUCK_MIX_MIN <= mix <= PLUCK_MIX_MAX,
{
    clamp(150_000_000 + scale(350_000_000, velocity), PLUCK_MIX_MIN, PLUCK_MIX_MAX)
}

/// Attack envelope at the onset of a note plucked at `velocity` at pitch
/// position `position`.
pub fn onset_envelope(velocity: u32, position: u32) -> (envelope: u32)
    requires
        velocity <= ONE,
        position <= ONE,
    ensures
        envelope == onset_envelope_of(velocity as int, position as int),
        envelope <= 60_000_000,
{
    let weight: u64 = 30_000_000 + scale(30_000_000, ONE - position);
    proof {
        assert(0 <= velocity * weight <= ONE * 60_000_000) by (nonlinear_arith)
            requires
                0 <= velocity <= ONE,
                0 <= weight <= 60_000_000,
        ;
    }
    let envelope: u64 = scale(velocity, weight as u32);
    envelope as u32
}

/// The pitch position lies between zero and one.
pub proof fn lemma_pitch_position_range(frequency: u32)
    ensures
        0 <= pitch_position_of(frequency) <= ONE,
{
}

/// A higher note does not lie lower between `PITCH_LOW` and `PITCH_HIGH`.
pub proof fn lemma_pitch_position_monotone(low: u32, high: u32)
    requires
        low <= high,
    ensures
        pitch_position_of(low) <= pitch_position_of(high),
{
}

/// Every quantity that a pluck gives a voice lies in its range.
pub proof fn lemma_pluck_ranges(sample_rate: u32, frequency: u32, velocity: u32)
    requires
        frequency >= MIN_FREQUENCY,
        velocity <= ONE,
    ensures
        MIN_DELAY <= delay_length_of(sample_rate, frequency) <= MAX_DELAY,
        0 <= frac_delay_of(sample_rate, frequency) <= FRAC_MAX,
        SUSTAIN_MIN <= sustain_of(pitch_position_of(frequency)) <= SUSTAIN_MAX,
        PICK_RATIO_MIN <= pick_ratio_of(velocity as int) <= PICK_RATIO_MAX,
        1 <= pluck_offset_of(delay_length_of(sample_rate, frequency), velocity as int)
            < delay_length_of(sample_rate, frequency),
        PLUCK_MIX_MIN <= pluck_mix_of(velocity as int) <= PLUCK_MIX_MAX,
        0 <= onset_envelope_of(velocity as int, pitch_position_of(frequency)) <= 60_000_000,
{
    lemma_div_is_ordered_by_denominator(
        effective_rate(sample_rate) * 1000,
        MIN_FREQUENCY as int,
        frequency as int,
    );
    let weight = 30_000_000 + scale_of(30_000_000, ONE - pitch_position_of(frequency));
    assert(0 <= velocity * weight <= ONE * 60_000_000) by (nonlinear_arith)
        requires
            0 <= velocity <= ONE,
            0 <= weight <= 60_000_000,
    ;
}

/// The weight of the excitation lies between zero and one, and it is one
/// at the pluck itself.
pub proof fn lemma_pluck_shape_range(index: int, pick: int, delay_len: int)
    requires
        delay_len > 0,
    ensures
        0 <= pluck_shape_of(index, pick, delay_len) <= ONE,
        pluck_shape_of(pick, pick, delay_len) == ONE,
{
    let distance = if index >= pick {
        index - pick
    } else {
        pick - index
    };
    lemma_round_div_monotone(0 * delay_len, 2_500_000_000 * distance, delay_len);
}

} // verus!
