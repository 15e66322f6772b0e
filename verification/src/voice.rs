//! One string: the control state of a delay-line voice.
//!
//! A voice is either idle or ringing.  Its samples are kept by the host;
//! this record keeps what decides how they are read and written: the
//! length of the delay line and the read position, the character that the
//! note was given when it was plucked, and the two magnitudes that decide
//! when the voice falls silent.

use vstd::prelude::*;
use vstd::arithmetic::div_mod::{lemma_mod_self_0, lemma_small_mod};
use crate::fixed::{
    clamp, div_round, lemma_round_div_exact, lemma_round_div_monotone, lemma_scale_bounds,
    lemma_scale_monotone, scale, scale_of, ONE,
};
use crate::note::{
    attack_decay_of, attack_shape_of, brightness_of, decay_of, delay_for, delay_length_of,
    dispersion_of, frac_delay_of, frequency_of, lemma_pluck_ranges, max_pluck_of, note_frequency,
    note_velocity, onset_envelope, onset_envelope_of, pitch_position, pitch_position_of,
    pluck_mix, pluck_mix_of, pluck_offset, pluck_offset_of, pluck_shape_of, sustain_at,
    sustain_of, velocity_of, FRAC_MAX, MAX_DELAY, MIN_DELAY, MIN_FREQUENCY, PLUCK_MIX_MAX,
    PLUCK_MIX_MIN, SUSTAIN_MAX, SUSTAIN_MIN,
};
use crate::tone::Tone;

verus! {

/// Level under which a voice counts as silent: `5e-6`.
pub const LEVEL_FLOOR: u32 = 5_000;

/// Envelope under which the attack counts as over: `5e-5`.
pub const ENVELOPE_FLOOR: u32 = 50_000;

/// Envelope above which the attack still adds noise: `1e-3`.
pub const ATTACK_THRESHOLD: u32 = 1_000_000;

/// Number of leading samples that are smoothed after a pluck.
pub const ONSET_SPAN: usize = 4;

/// Control state of one voice.
#[derive(Clone, Copy, Debug, PartialEq, Eq)]
pub struct Voice {
    /// Ringing (`true`) or idle.
    pub active: bool,
    /// Length of the delay line in samples: the whole part of the period.
    pub delay_len: usize,
    /// Samples the host holds for this voice; it grows and never shrinks.
    pub capacity: usize,
    /// Position in the delay line that the next frame reads and writes back.
    pub read_idx: usize,
    /// Fractional part of the period, by which the read is interpolated.
    pub frac_delay: u32,
    /// Frequency of the note in millihertz.
    pub frequency: u32,
    /// Factor on the decay that lets low notes ring longer.
    pub sustain: u32,
    /// Position of the pluck along the delay line.
    pub pluck_offset: usize,
    /// Share of the pluck in the brightness of the note.
    pub pluck_mix: u32,
    /// Running level of the voice.
    pub level: u32,
    /// Attack envelope of the voice.
    pub envelope: u32,
}

/// The filter coefficients of one voice for one frame.
#[derive(Clone, Copy, Debug, PartialEq, Eq)]
pub struct Coefficients {
    /// Gain of the feedback loop.
    pub decay: u32,
    /// Share of the unfiltered signal in the feedback.
    pub brightness: u32,
    /// Coefficient of the all-pass.
    pub dispersion: u32,
    /// Factor by which the attack envelope falls in this frame.
    pub attack_decay: u32,
    /// Weight of the attack noise.
    pub attack_shape: u32,
}

/// Whether a voice with this level and envelope has faded out.
pub open spec fn is_faded(level: u32, envelope: u32) -> bool {
    level < LEVEL_FLOOR && envelope < ENVELOPE_FLOOR
}

/// An idle voice that holds no samples; its character is that of a soft
/// note of 110 hertz.
pub open spec fn idle_voice() -> Voice {
    Voice {
        active: false,
        delay_len: 0,
        capacity: 0,
        read_idx: 0,
        frac_delay: 0,
        frequency: 110_000,
        sustain: 995_000_000,
        pluck_offset: 1,
        pluck_mix: 300_000_000,
        level: 0,
        envelope: 0,
    }
}

impl Voice {
    /// The state every reachable voice is in.
    pub open spec fn well_formed(self) -> bool {
        &&& self.delay_len <= self.capacity <= MAX_DELAY
        &&& self.active ==> self.delay_len >= MIN_DELAY
        &&& self.delay_len == 0 ==> self.read_idx == 0
        &&& self.delay_len > 0 ==> self.read_idx < self.delay_len
        &&& 1 <= self.pluck_offset <= max_pluck_of(self.delay_len as int)
        &&& self.frac_delay <= FRAC_MAX
        &&& self.frequency >= MIN_FREQUENCY
        &&& SUSTAIN_MIN <= self.sustain <= SUSTAIN_MAX
        &&& PLUCK_MIX_MIN <= self.pluck_mix <= PLUCK_MIX_MAX
    }

    /// The voice after a pluck at `sample_rate` hertz that asks for
    /// `frequency` millihertz at `velocity`: ringing from position zero, on
    /// a delay line that was grown if it was too short, at a level equal to
    /// the velocity.
    pub open spec fn plucked(self, sample_rate: u32, frequency: u32, velocity: u32) -> Voice {
        let f = frequency_of(frequency);
        let v = velocity_of(velocity);
        let len = delay_length_of(sample_rate, f);
        let position = pitch_position_of(f);
        Voice {
            active: true,
            delay_len: len as usize,
            capacity: if self.capacity < len {
                len as usize
            } else {
                self.capacity
            },
            read_idx: 0,
            frac_delay: frac_delay_of(sample_rate, f) as u32,
            frequency: f,
            sustain: sustain_of(position) as u32,
            pluck_offset: pluck_offset_of(len, v as int) as usize,
            pluck_mix: pluck_mix_of(v as int) as u32,
            level: v,
            envelope: onset_envelope_of(v as int, position) as u32,
        }
    }

    /// Position after `read_idx` on the delay line, wrapping at its end.
    pub open spec fn next_idx(self) -> usize {
        if self.read_idx + 1 >= self.delay_len {
            0
        } else {
            (self.read_idx + 1) as usize
        }
    }

    /// The envelope after one rendered frame in which it fell by the factor
    /// `attack_decay`: it falls while it lies above `ATTACK_THRESHOLD` and
    /// rests from then on.
    pub open spec fn envelope_after(self, attack_decay: u32) -> u32 {
        if self.envelope > ATTACK_THRESHOLD {
            scale_of(self.envelope as int, attack_decay as int) as u32
        } else {
            self.envelope
        }
    }

    /// The voice after one rendered frame that left it at `level`: the read
    /// position has moved on by one, the envelope has fallen by the factor
    /// `attack_decay`, and the voice has gone idle if it has faded.
    pub open spec fn stepped(self, level: u32, attack_decay: u32) -> Voice {
        Voice {
            active: !is_faded(level, self.envelope_after(attack_decay)),
            read_idx: self.next_idx(),
            level,
            envelope: self.envelope_after(attack_decay),
            ..self
        }
    }

    /// Whether this frame adds attack noise to the voice.
    pub open spec fn wants_noise(self) -> bool {
        self.active && self.envelope > ATTACK_THRESHOLD
    }

    /// Samples smoothed at the onset: `ONSET_SPAN` on a delay line longer
    /// than that, none on a shorter one.
    pub open spec fn onset_span_of(self) -> usize {
        if self.delay_len > ONSET_SPAN {
            ONSET_SPAN
        } else {
            0
        }
    }

    /// The coefficients that a tone gives this voice.
    pub open spec fn coefficients_of(self, tone: Tone) -> Coefficients {
        let position = pitch_position_of(self.frequency);
        Coefficients {
            decay: decay_of(tone.decay as int, position, self.sustain as int) as u32,
            brightness: brightness_of(
                tone.brightness as int,
                position,
                self.pluck_mix as int,
            ) as u32,
            dispersion: dispersion_of(tone.dispersion as int, position) as u32,
            attack_decay: attack_decay_of(tone.attack_decay as int, position) as u32,
            attack_shape: attack_shape_of(position) as u32,
        }
    }

    /// An idle voice that holds no samples.
    pub fn new() -> (voice: Voice)
        ensures
            voice == idle_voice(),
            voice.well_formed(),
    {
        Voice {
            active: false,
            delay_len: 0,
            capacity: 0,
            read_idx: 0,
            frac_delay: 0,
            frequency: 110_000,
            sustain: 995_000_000,
            pluck_offset: 1,
            pluck_mix: 300_000_000,
            level: 0,
            envelope: 0,
        }
    }

    /// Plucks the voice at `sample_rate` hertz: a note of `frequency`
    /// millihertz at `velocity`.  A frequency under `MIN_FREQUENCY` is
    /// raised to it, a velocity over one is lowered to it.
    pub fn pluck(&mut self, sample_rate: u32, frequency: u32, velocity: u32)
        requires
            old(self).well_formed(),
        ensures
            *final(self) == old(self).plucked(sample_rate, frequency, velocity),
            final(self).well_formed(),
            final(self).active,
            final(self).capacity >= old(self).capacity,
    {
        let f: u32 = note_frequency(frequency);
        let v: u32 = note_velocity(velocity);
        let position: u32 = pitch_position(f);
        let delay: (usize, u32) = delay_for(sample_rate, f);
        if self.capacity < delay.0 {
            self.capacity = delay.0;
        }
        self.delay_len = delay.0;
        self.read_idx = 0;
        self.frac_delay = delay.1;
        self.frequency = f;
        self.sustain = sustain_at(position);
        self.pluck_offset = pluck_offset(delay.0, v);
        self.pluck_mix = pluck_mix(v);
        self.level = v;
        self.envelope = onset_envelope(v, position);
        self.active = true;
    }

    /// Ends a frame of a ringing voice: records the level it was left at,
    /// lets the envelope fall by the factor `attack_decay`, moves the read
    /// position on and retires the voice once it has faded.
    pub fn step(&mut self, level: u32, attack_decay: u32)
        requires
            old(self).well_formed(),
            old(self).active,
            attack_decay <= ONE,
        ensures
            *final(self) == old(self).stepped(level, attack_decay),
            final(self).well_formed(),
            final(self).envelope <= old(self).envelope,
    {
        let next: usize = if self.read_idx + 1 >= self.delay_len {
            0
        } else {
            self.read_idx + 1
        };
        self.read_idx = next;
        self.level = level;
        if self.envelope > ATTACK_THRESHOLD {
            proof {
                lemma_scale_bounds(self.envelope as int, attack_decay as int);
            }
            self.envelope = scale(self.envelope, attack_decay) as u32;
        }
        if level < LEVEL_FLOOR && self.envelope < ENVELOPE_FLOOR {
            self.active = false;
        }
    }

    /// Samples to smooth at the onset of the current note.
    pub fn onset_span(&self) -> (span: usize)
        ensures
            span == self.onset_span_of(),
            span <= self.delay_len,
    {
        if self.delay_len > ONSET_SPAN {
            ONSET_SPAN
        } else {
            0
        }
    }

    /// Weight of the excitation at sample `index` of the voice.
    pub fn pluck_shape(&self, index: usize) -> (weight: u32)
        requires
            self.well_formed(),
            self.delay_len > 0,
        ensures
            weight == pluck_shape_of(index as int, self.pluck_offset as int, self.delay_len as int),
            weight <= ONE,
    {
        let distance: usize = if index >= self.pluck_offset {
            index - self.pluck_offset
        } else {
            self.pluck_offset - index
        };
        if distance >= self.delay_len {
            proof {
                let len = self.delay_len as int;
                lemma_round_div_monotone(ONE * len, 2_500_000_000 * distance, len);
                lemma_round_div_exact(ONE as int, len);
            }
            0
        } else {
            let fall: u64 = div_round(2_500_000_000u64 * (distance as u64), self.delay_len as u64);
            if fall >= ONE as u64 {
                0
            } else {
                ONE - (fall as u32)
            }
        }
    }

    /// The coefficients that `tone` gives this voice.
    pub fn coefficients(&self, tone: &Tone) -> (coefficients: Coefficients)
        requires
            self.well_formed(),
            tone.in_range(),
        ensures
            coefficients == self.coefficients_of(*tone),
            coefficients.brightness <= ONE,
            coefficients.dispersion <= 350_000_000,
            970_000_000 <= coefficients.attack_decay <= 993_000_000,
            450_000_000 <= coefficients.attack_shape <= 800_000_000,
    {
        let position: u32 = pitch_position(self.frequency);
        let gain: u64 = tone.decay as u64 + scale(2_500_000, ONE - position);
        let decay: u64 = scale(gain as u32, self.sustain);
        let bright: u64 = tone.brightness as u64 + scale(450_000_000, position) + scale(
            300_000_000,
            self.pluck_mix,
        );
        let spread: u64 = 150_000_000 + scale(250_000_000, position);
        let dispersion: u64 = scale(tone.dispersion, spread as u32);
        let attack: u64 = tone.attack_decay as u64 - scale(4_000_000, position);
        let shape: u64 = 450_000_000 + scale(350_000_000, position);
        Coefficients {
            decay: decay as u32,
            brightness: clamp(bright, 0, ONE),
            dispersion: clamp(dispersion, 0, 350_000_000),
            attack_decay: clamp(attack, 970_000_000, 993_000_000),
            attack_shape: shape as u32,
        }
    }
}

/// On a delay line in use the position after the read position is its
/// successor modulo the length of the line.
pub proof fn lemma_next_idx_is_successor(voice: Voice)
    requires
        voice.well_formed(),
        voice.delay_len > 0,
    ensures
        voice.next_idx() == (voice.read_idx + 1) % (voice.delay_len as int),
{
    if voice.read_idx + 1 >= voice.delay_len {
        lemma_mod_self_0(voice.delay_len as int);
    } else {
        lemma_small_mod((voice.read_idx + 1) as nat, voice.delay_len as nat);
    }
}

/// A pluck leaves a voice well formed and ringing, whatever was asked for,
/// and its delay line no shorter than it was.
pub proof fn lemma_pluck_keeps_well_formed(
    voice: Voice,
    sample_rate: u32,
    frequency: u32,
    velocity: u32,
)
    requires
        voice.well_formed(),
    ensures
        voice.plucked(sample_rate, frequency, velocity).well_formed(),
        voice.plucked(sample_rate, frequency, velocity).active,
        voice.plucked(sample_rate, frequency, velocity).capacity >= voice.capacity,
{
    lemma_pluck_ranges(sample_rate, frequency_of(frequency), velocity_of(velocity));
}

/// A frame leaves a ringing voice well formed; its delay line and the
/// character of its note stay as they are.
pub proof fn lemma_step_keeps_well_formed(voice: Voice, level: u32, attack_decay: u32)
    requires
        voice.well_formed(),
        voice.active,
        attack_decay <= ONE,
    ensures
        voice.stepped(level, attack_decay).well_formed(),
        voice.stepped(level, attack_decay).delay_len == voice.delay_len,
        voice.stepped(level, attack_decay).capacity == voice.capacity,
        voice.stepped(level, attack_decay).frequency == voice.frequency,
{
}

/// The envelope never rises in a frame, and it rests once it has come down
/// to `ATTACK_THRESHOLD`.
pub proof fn lemma_envelope_falls_then_rests(voice: Voice, attack_decay: u32)
    requires
        attack_decay <= ONE,
    ensures
        voice.envelope_after(attack_decay) <= voice.envelope,
        voice.envelope <= ATTACK_THRESHOLD ==> voice.envelope_after(attack_decay) == voice.envelope,
{
    lemma_scale_bounds(voice.envelope as int, attack_decay as int);
}

/// An envelope that falls by a factor of at least `0.97` does not come down
/// to `ENVELOPE_FLOOR` in a frame unless it was under it before: a voice
/// whose attack has ended keeps ringing, however low its level, until a
/// new note takes it.
pub proof fn lemma_attack_ends_above_the_floor(voice: Voice, level: u32, attack_decay: u32)
    requires
        voice.envelope >= ENVELOPE_FLOOR,
        970_000_000 <= attack_decay <= ONE,
    ensures
        voice.envelope_after(attack_decay) >= ENVELOPE_FLOOR,
        voice.stepped(level, attack_decay).active,
{
    if voice.envelope > ATTACK_THRESHOLD {
        lemma_scale_monotone(voice.envelope as int, 970_000_000, attack_decay as int);
        lemma_scale_bounds(voice.envelope as int, attack_decay as int);
    }
}

/// The coefficients of a voice lie in their ranges whatever the tone, as
/// long as the tone lies in its own.
pub proof fn lemma_coefficient_ranges(tone: Tone, voice: Voice)
    requires
        tone.in_range(),
        voice.well_formed(),
    ensures
        0 <= dispersion_of(tone.dispersion as int, pitch_position_of(voice.frequency))
            <= 350_000_000,
        0 <= brightness_of(
            tone.brightness as int,
            pitch_position_of(voice.frequency),
            voice.pluck_mix as int,
        ) <= ONE,
        0 <= decay_of(tone.decay as int, pitch_position_of(voice.frequency), voice.sustain as int)
            <= 1_002_400_000,
        970_000_000 <= attack_decay_of(tone.attack_decay as int, pitch_position_of(voice.frequency))
            <= 993_000_000,
        450_000_000 <= attack_shape_of(pitch_position_of(voice.frequency)) <= 800_000_000,
{
    let p = pitch_position_of(voice.frequency);
    let gain = tone.decay + scale_of(2_500_000, ONE - p);
    lemma_scale_bounds(gain, voice.sustain as int);
}

} // verus!
