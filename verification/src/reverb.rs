//! Geometry of the convolution reverb.
//!
//! The reverb convolves the dry signal with a fixed impulse response.  This
//! module decides how long the response is, where the early reflections
//! fall in it, and which slot of the circular history each tap reads.

use vstd::prelude::*;
use vstd::arithmetic::div_mod::{
    lemma_add_mod_noop, lemma_fundamental_div_mod, lemma_mod_add_multiples_vanish,
    lemma_small_mod, lemma_sub_mod_noop,
};
use crate::fixed::{div_round, lemma_round_div_between, ratio_of, round_div, scale, scale_of, ONE};

verus! {

/// Shortest impulse response, in samples.
pub const MIN_RESPONSE: usize = 64;

/// Longest impulse response, in samples.
pub const MAX_RESPONSE: usize = 8192;

/// Seed of the noise that shapes the tail of the response.
pub const REVERB_SEED: u32 = 1234567;

/// Number of early reflections.
pub const REFLECTIONS: usize = 8;

/// Time in milliseconds over which the tail of the response falls to `1/e`.
pub const TAIL_TIME: u32 = 200;

/// Gain of the tail of the response.
pub const TAIL_GAIN: u32 = 60_000_000;

/// Largest smoothing coefficient of the tail.
pub const TAIL_SMOOTHING_MAX: u32 = 980_000_000;

/// Length of the impulse response at `sample_rate` hertz: a tenth of a
/// second, rounded to whole samples and kept within
/// `[MIN_RESPONSE, MAX_RESPONSE]`.
pub open spec fn response_length_of(sample_rate: u32) -> usize {
    let samples = round_div(sample_rate as int, 10);
    if samples < MIN_RESPONSE {
        MIN_RESPONSE
    } else if samples > MAX_RESPONSE {
        MAX_RESPONSE
    } else {
        samples as usize
    }
}

/// Length of the impulse response at `sample_rate` hertz.
pub fn response_length(sample_rate: u32) -> (len: usize)
    ensures
        len == response_length_of(sample_rate),
        MIN_RESPONSE <= len <= MAX_RESPONSE,
{
    let samples: u64 = div_round(sample_rate as u64, 10);
    if samples < MIN_RESPONSE as u64 {
        MIN_RESPONSE
    } else if samples > MAX_RESPONSE as u64 {
        MAX_RESPONSE
    } else {
        samples as usize
    }
}

/// Smoothing coefficient of the tail noise at tap `index` of a response of
/// `len` taps: `0.25` at the first tap, rising by `0.55` over the response,
/// and at most `TAIL_SMOOTHING_MAX`.
pub open spec fn tail_smoothing_of(index: int, len: int) -> int {
    let depth = if index >= len {
        ONE as int
    } else {
        ratio_of(index, len)
    };
    let raw = 250_000_000 + scale_of(550_000_000, depth);
    if raw > TAIL_SMOOTHING_MAX {
        TAIL_SMOOTHING_MAX as int
    } else {
        raw
    }
}

/// Smoothing coefficient of the tail noise at tap `index` of a response of
/// `len` taps.
pub fn tail_smoothing(index: usize, len: usize) -> (smoothing: u32)
    requires
        0 < len <= MAX_RESPONSE,
    ensures
        smoothing == tail_smoothing_of(index as int, len as int),
        250_000_000 <= smoothing <= TAIL_SMOOTHING_MAX,
{
    let depth: u32 = if index >= len {
        ONE
    } else {
        proof {
            lemma_round_div_between(index * ONE, len as int, 0, ONE as int);
        }
        div_round((index as u64) * (ONE as u64), len as u64) as u32
    };
    let raw: u64 = 250_000_000 + scale(550_000_000, depth);
    if raw > TAIL_SMOOTHING_MAX as u64 {
        TAIL_SMOOTHING_MAX
    } else {
        raw as u32
    }
}

/// One early reflection of the room.
#[derive(Clone, Copy, Debug, PartialEq, Eq)]
pub struct Reflection {
    /// Time after the direct sound, in units of 100 microseconds.
    pub delay: u32,
    /// Amplitude, in hundredths.
    pub gain: u32,
}

/// The early reflections, in order of arrival.
pub open spec fn reflection_table() -> Seq<Reflection> {
    seq![
        Reflection { delay: 25, gain: 75 },
        Reflection { delay: 49, gain: 55 },
        Reflection { delay: 73, gain: 40 },
        Reflection { delay: 110, gain: 28 },
        Reflection { delay: 170, gain: 22 },
        Reflection { delay: 260, gain: 18 },
        Reflection { delay: 350, gain: 14 },
        Reflection { delay: 480, gain: 12 },
    ]
}

/// The early reflections, in order of arrival.
pub fn reflections() -> (table: Vec<Reflection>)
    ensures
        table@ == reflection_table(),
        table@.len() == REFLECTIONS,
{
    let mut table: Vec<Reflection> = Vec::new();
    table.push(Reflection { delay: 25, gain: 75 });
    table.push(Reflection { delay: 49, gain: 55 });
    table.push(Reflection { delay: 73, gain: 40 });
    table.push(Reflection { delay: 110, gain: 28 });
    table.push(Reflection { delay: 170, gain: 22 });
    table.push(Reflection { delay: 260, gain: 18 });
    table.push(Reflection { delay: 350, gain: 14 });
    table.push(Reflection { delay: 480, gain: 12 });
    table
}

/// The sample at which a reflection arrives `delay` units of 100
/// microseconds after the direct sound: `delay * sample_rate / 10_000`,
/// rounded.
pub open spec fn reflection_sample(sample_rate: u32, delay: u32) -> int {
    round_div(delay as int * sample_rate as int, 10_000)
}

/// The tap of a response of `len` samples on which a reflection falls, or
/// `None` where it arrives after the response has ended.
pub open spec fn reflection_slot_of(sample_rate: u32, delay: u32, len: usize) -> Option<usize> {
    if reflection_sample(sample_rate, delay) < len {
        Some(reflection_sample(sample_rate, delay) as usize)
    } else {
        None
    }
}

/// The tap of a response of `len` samples on which a reflection falls.
pub fn reflection_slot(sample_rate: u32, delay: u32, len: usize) -> (slot: Option<usize>)
    ensures
        slot == reflection_slot_of(sample_rate, delay, len),
        slot matches Some(s) ==> s < len,
{
    assert(delay as int * sample_rate as int <= 0xFFFF_FFFF * 0xFFFF_FFFF) by (nonlinear_arith)
        requires
            0 <= delay <= 0xFFFF_FFFF,
            0 <= sample_rate <= 0xFFFF_FFFF,
    ;
    let sample: u64 = div_round((delay as u64) * (sample_rate as u64), 10_000);
    if sample < len as u64 {
        Some(sample as usize)
    } else {
        None
    }
}

/// Write position and length of the circular history of the reverb.
#[derive(Clone, Copy, Debug, PartialEq, Eq)]
pub struct HistoryRing {
    /// Number of slots: the length of the impulse response.
    pub len: usize,
    /// Slot that the current frame writes.
    pub pos: usize,
}

/// The slot that lies `lag` slots before `pos` on a ring of `len` slots.
pub open spec fn slot_before(pos: int, lag: int, len: int) -> int {
    (pos - lag) % len
}

/// The slot that lies `count` slots after `pos` on a ring of `len` slots.
pub open spec fn slot_after(pos: int, count: int, len: int) -> int {
    (pos + count) % len
}

/// What a frame writes, tap `lag` reads `lag` frames later.
pub proof fn lemma_tap_reads_past_write(pos: int, lag: int, len: int)
    requires
        0 <= pos < len,
        0 <= lag < len,
    ensures
        slot_before(slot_after(pos, lag, len), lag, len) == pos,
{
    lemma_sub_mod_noop(pos + lag, lag, len);
    lemma_small_mod(lag as nat, len as nat);
    lemma_small_mod(pos as nat, len as nat);
}

/// Two taps never read the same slot in one frame.
pub proof fn lemma_taps_read_distinct_slots(pos: int, a: int, b: int, len: int)
    requires
        0 <= pos < len,
        0 <= a < b < len,
    ensures
        slot_before(pos, a, len) != slot_before(pos, b, len),
{
    lemma_fundamental_div_mod(pos - a, len);
    lemma_fundamental_div_mod(pos - b, len);
    let qa = (pos - a) / len;
    let qb = (pos - b) / len;
    if (pos - a) % len == (pos - b) % len {
        assert(b - a == len * (qa - qb)) by (nonlinear_arith)
            requires
                pos - a == len * qa + (pos - a) % len,
                pos - b == len * qb + (pos - b) % len,
                (pos - a) % len == (pos - b) % len,
        ;
        assert(false) by (nonlinear_arith)
            requires
                b - a == len * (qa - qb),
                0 < b - a < len,
        ;
    }
}

/// Every slot of the ring is a slot before the write position.
pub proof fn lemma_slot_range(pos: int, lag: int, len: int)
    requires
        0 < len,
    ensures
        0 <= slot_before(pos, lag, len) < len,
        0 <= slot_after(pos, lag, len) < len,
{
}

/// Moving on `a` frames and then `b` frames is moving on `a + b` frames,
/// and after as many frames as the ring has slots the write position is
/// back where it was.
pub proof fn lemma_ring_moves_add(pos: int, a: int, b: int, len: int)
    requires
        0 <= pos < len,
    ensures
        slot_after(slot_after(pos, a, len), b, len) == slot_after(pos, a + b, len),
        slot_after(pos, len, len) == pos,
{
    lemma_add_mod_noop(pos + a, b, len);
    assert(((pos + a) % len + b) % len == (pos + a + b) % len) by {
        lemma_add_mod_noop((pos + a) % len, b, len);
        vstd::arithmetic::div_mod::lemma_mod_twice(pos + a, len);
    }
    lemma_mod_add_multiples_vanish(pos, len);
    lemma_small_mod(pos as nat, len as nat);
}

impl HistoryRing {
    /// The ring has slots and its write position is one of them.
    pub open spec fn well_formed(self) -> bool {
        0 < self.len && self.pos < self.len
    }

    /// A ring of `len` slots that writes slot zero first.
    pub fn new(len: usize) -> (ring: HistoryRing)
        requires
            len > 0,
        ensures
            ring == (HistoryRing { len, pos: 0 }),
            ring.well_formed(),
    {
        HistoryRing { len, pos: 0 }
    }

    /// The slot that tap `lag` of the response reads: the one written `lag`
    /// frames before the current frame.
    pub fn slot(&self, lag: usize) -> (slot: usize)
        requires
            self.well_formed(),
            lag < self.len,
        ensures
            slot == slot_before(self.pos as int, lag as int, self.len as int),
            slot < self.len,
            lag == 0 ==> slot == self.pos,
    {
        if lag <= self.pos {
            let slot: usize = self.pos - lag;
            proof {
                lemma_small_mod(slot as nat, self.len as nat);
            }
            slot
        } else {
            let slot: usize = self.len - (lag - self.pos);
            proof {
                lemma_small_mod(slot as nat, self.len as nat);
                lemma_mod_add_multiples_vanish(
                    self.pos as int - lag as int,
                    self.len as int,
                );
            }
            slot
        }
    }

    /// Moves the write position to the next slot, from the last slot back to
    /// slot zero.
    pub fn advance(&mut self)
        requires
            old(self).well_formed(),
        ensures
            final(self).len == old(self).len,
            final(self).pos == slot_after(old(self).pos as int, 1, old(self).len as int),
            final(self).well_formed(),
    {
        let next: usize = self.pos + 1;
        if next >= self.len {
            proof {
                vstd::arithmetic::div_mod::lemma_mod_self_0(self.len as int);
            }
            self.pos = 0;
        } else {
            proof {
                lemma_small_mod(next as nat, self.len as nat);
            }
            self.pos = next;
        }
    }
}

} // verus!
