//! Deterministic noise: a 32-bit linear congruential generator.
//!
//! A draw is the upper 24 bits of the new state.  A host maps a draw `d`
//! to the signal value `2 * d / NOISE_SCALE - 1`, which lies in `[-1, 1]`
//! because `0 <= d <= NOISE_SCALE`.

use vstd::prelude::*;

verus! {

/// Multiplier of the generator.
pub const LCG_MULTIPLIER: u32 = 1664525;

/// Increment of the generator.
pub const LCG_INCREMENT: u32 = 1013904223;

/// Largest draw: `2^24 - 1`.
pub const NOISE_SCALE: u32 = 0xFF_FFFF;

/// The state that follows `state`.
pub open spec fn lcg_step(state: u32) -> u32 {
    ((state as int * LCG_MULTIPLIER as int + LCG_INCREMENT as int) % 0x1_0000_0000) as u32
}

/// The state reached from `state` after `n` steps.
pub open spec fn lcg_iterate(state: u32, n: nat) -> u32
    decreases n,
{
    if n == 0 {
        state
    } else {
        lcg_step(lcg_iterate(state, (n - 1) as nat))
    }
}

/// The draw that a state yields: its upper 24 bits.
pub open spec fn draw_of(state: u32) -> u32 {
    state / 256
}

/// The `k`-th draw (counted from zero) taken from a generator in `state`.
pub open spec fn nth_draw(state: u32, k: nat) -> u32 {
    draw_of(lcg_iterate(state, k + 1))
}

/// Steps the generator once and returns the draw of the new state.
pub fn lcg_next(seed: &mut u32) -> (draw: u32)
    ensures
        *final(seed) == lcg_step(*old(seed)),
        draw == draw_of(*final(seed)),
        draw <= NOISE_SCALE,
{
    let next: u32 = seed.wrapping_mul(LCG_MULTIPLIER).wrapping_add(LCG_INCREMENT);
    proof {
        lemma_wrapping_step(*seed);
    }
    *seed = next;
    let draw: u32 = next >> 8;
    assert(draw == next / 256) by (bit_vector)
        requires
            draw == next >> 8,
    ;
    draw
}

/// The first `count` draws taken from a generator in `state`.
pub open spec fn draws(state: u32, count: nat) -> Seq<u32> {
    Seq::new(count, |k: int| nth_draw(state, k as nat))
}

/// Replaces the contents of `out` by the next `count` draws.
pub fn fill_noise(seed: &mut u32, out: &mut Vec<u32>, count: usize)
    ensures
        *final(seed) == lcg_iterate(*old(seed), count as nat),
        final(out)@ == draws(*old(seed), count as nat),
{
    let ghost start: u32 = *seed;
    out.clear();
    let mut k: usize = 0;
    while k < count
        invariant
            k <= count,
            *seed == lcg_iterate(start, k as nat),
            out@ == draws(start, k as nat),
        decreases count - k,
    {
        let draw: u32 = lcg_next(seed);
        out.push(draw);
        k = k + 1;
    }
}

/// Numerator of the signal value of a draw over `NOISE_SCALE`: the value is
/// `2 * draw / NOISE_SCALE - 1`.
pub open spec fn value_numerator(draw: u32) -> int {
    2 * draw - NOISE_SCALE
}

/// Every draw lies between zero and `NOISE_SCALE`, so its signal value lies
/// between minus one and one.
pub proof fn lemma_value_in_unit_interval(state: u32)
    ensures
        draw_of(state) <= NOISE_SCALE,
        -NOISE_SCALE <= value_numerator(draw_of(state)) <= NOISE_SCALE,
{
}

/// Stepping `a` times and then `b` times is stepping `a + b` times.
pub proof fn lemma_iterate_split(state: u32, a: nat, b: nat)
    ensures
        lcg_iterate(lcg_iterate(state, a), b) == lcg_iterate(state, a + b),
    decreases b,
{
    if b > 0 {
        lemma_iterate_split(state, a, (b - 1) as nat);
    }
}

/// Drawing `a` values and then `b` more yields the first `a + b` draws.
pub proof fn lemma_draws_continue(state: u32, a: nat, b: nat)
    ensures
        draws(state, a) + draws(lcg_iterate(state, a), b) == draws(state, a + b),
{
    let joined = draws(state, a) + draws(lcg_iterate(state, a), b);
    assert forall|k: int| 0 <= k < a + b implies joined[k] == draws(state, a + b)[k] by {
        if k >= a {
            lemma_iterate_split(state, a, (k - a + 1) as nat);
        }
    }
}

/// Wrapping multiplication and addition compute the step modulo `2^32`.
proof fn lemma_wrapping_step(state: u32)
    ensures
        vstd::wrapping::u32_specs::wrapping_add(
            vstd::wrapping::u32_specs::wrapping_mul(state, LCG_MULTIPLIER),
            LCG_INCREMENT,
        ) == lcg_step(state),
{
}

} // verus!
