//! The engine: eight voices, one tone, one noise generator and the write
//! position of the reverb.
//!
//! The engine takes every decision of the instrument and leaves the
//! arithmetic on samples to its host.  A note goes through `excite`, which
//! picks the voice, tunes it and draws the noise that the host shapes into
//! the pluck.  A rendered frame goes through `begin_voice` and `end_voice`
//! once for each voice, then through `reverb_slot` for each tap of the
//! impulse response and `reverb_advance` once.

use vstd::prelude::*;
use crate::fixed::{clamp, clamp_of};
use crate::noise::{draw_of, draws, fill_noise, lcg_iterate, lcg_next, lcg_step};
use crate::pool::{
    active_count, count_active, is_quietest, is_target, lemma_active_count_bound,
    lemma_active_count_full, lemma_active_count_update, lemma_active_count_zero, select_voice,
};
use crate::reverb::{response_length, response_length_of, slot_after, slot_before, HistoryRing};
use crate::tone::{
    guitar_of, preset_of, GuitarType, Tone, ATTACK_DECAY_MAX, ATTACK_DECAY_MIN,
    BRIGHTNESS_MAX, BRIGHTNESS_MIN, DECAY_MAX, DECAY_MIN, DISPERSION_MAX, DISPERSION_MIN,
    REVERB_MIX_MAX, REVERB_MIX_MIN,
};
use crate::voice::{
    idle_voice, lemma_pluck_keeps_well_formed, Coefficients, Voice, ATTACK_THRESHOLD,
};

verus! {

/// Number of voices of an engine.
pub const MAX_VOICES: usize = 8;

/// State of the noise generator of a new engine.
pub const INITIAL_SEED: u32 = 1;

/// Control state of the synthesizer.
pub struct Engine {
    sample_rate: u32,
    noise_seed: u32,
    guitar: GuitarType,
    tone: Tone,
    voices: [Voice; MAX_VOICES],
    reverb: HistoryRing,
}

/// What an engine holds, as plain values.
pub struct EngineState {
    /// Sample rate in hertz; zero for an engine that renders silence.
    pub sample_rate: u32,
    /// State of the noise generator shared by plucks and attacks.
    pub noise_seed: u32,
    /// Guitar type of the preset applied last.
    pub guitar: GuitarType,
    /// Current tone parameters.
    pub tone: Tone,
    /// The voices, in pool order.
    pub voices: Seq<Voice>,
    /// Circular history of the reverb.
    pub reverb: HistoryRing,
}

impl EngineState {
    /// What holds of the state of every engine.
    pub open spec fn well_formed(self) -> bool {
        &&& self.voices.len() == MAX_VOICES
        &&& forall|i: int| 0 <= i < self.voices.len() ==> (#[trigger] self.voices[i]).well_formed()
        &&& self.tone.in_range()
        &&& self.reverb.well_formed()
        &&& self.reverb.len == response_length_of(self.sample_rate)
    }
}

/// The state of a new engine at `sample_rate` hertz.
pub open spec fn initial_state(sample_rate: u32) -> EngineState {
    EngineState {
        sample_rate,
        noise_seed: INITIAL_SEED,
        guitar: GuitarType::SteelBright,
        tone: preset_of(GuitarType::SteelBright),
        voices: Seq::new(MAX_VOICES as nat, |i: int| idle_voice()),
        reverb: HistoryRing { len: response_length_of(sample_rate), pos: 0 },
    }
}

/// What a ringing voice needs at the start of a frame.
#[derive(Clone, Copy, Debug, PartialEq, Eq)]
pub struct VoiceFrame {
    /// Position of the delay line that this frame reads and writes back.
    pub read: usize,
    /// Position after it, whose sample is interpolated with the first.
    pub next: usize,
    /// Weight of the second sample in the interpolation.
    pub frac_delay: u32,
    /// Attack envelope of the voice in this frame.
    pub envelope: u32,
    /// Filter coefficients of the voice under the current tone.
    pub coefficients: Coefficients,
    /// The draw for the attack noise, while the attack lasts.
    pub noise: Option<u32>,
}

impl View for Engine {
    type V = EngineState;

    closed spec fn view(&self) -> EngineState {
        EngineState {
            sample_rate: self.sample_rate,
            noise_seed: self.noise_seed,
            guitar: self.guitar,
            tone: self.tone,
            voices: self.voices@,
            reverb: self.reverb,
        }
    }
}

impl Engine {
    /// The state every engine is in.
    pub open spec fn well_formed(&self) -> bool {
        self@.well_formed()
    }

    /// Every engine is well formed, wherever it came from.
    #[verifier::type_invariant]
    spec fn holds_well_formed(&self) -> bool {
        self@.well_formed()
    }

    /// An engine at `sample_rate` hertz: all voices idle, the first preset
    /// applied, the reverb history at its first slot.
    pub fn new(sample_rate: u32) -> (engine: Engine)
        ensures
            engine@ == initial_state(sample_rate),
            engine.well_formed(),
            active_count(engine@.voices) == 0,
    {
        let voices: [Voice; MAX_VOICES] = [Voice::new(); MAX_VOICES];
        let len: usize = response_length(sample_rate);
        let engine = Engine {
            sample_rate,
            noise_seed: INITIAL_SEED,
            guitar: GuitarType::SteelBright,
            tone: Tone::preset(GuitarType::SteelBright),
            voices,
            reverb: HistoryRing::new(len),
        };
        proof {
            assert(engine@.voices =~= initial_state(sample_rate).voices);
            lemma_active_count_zero(engine@.voices);
        }
        engine
    }

    /// Starts a note of `frequency` millihertz at `velocity`.
    ///
    /// The note takes the first idle voice, or the quietest one where all
    /// are ringing.  That voice is plucked; no other voice changes.  `noise`
    /// receives one draw for each sample that the voice holds afterwards,
    /// and the generator moves on by as many steps.  Returns the voice
    /// taken.
    pub fn excite(&mut self, frequency: u32, velocity: u32, noise: &mut Vec<u32>) -> (slot: usize)
        ensures
            final(self).well_formed(),
            is_target(old(self)@.voices, slot as int),
            final(self)@ == state_after_note(old(self)@, slot as int, frequency, velocity),
            final(noise)@ == draws(
                old(self)@.noise_seed,
                final(self)@.voices[slot as int].capacity as nat,
            ),
            active_count(final(self)@.voices) == if active_count(old(self)@.voices) < MAX_VOICES {
                active_count(old(self)@.voices) + 1
            } else {
                MAX_VOICES as nat
            },
    {
        proof {
            use_type_invariant(&*self);
        }
        let target: Option<usize> = select_voice(self.voices.as_slice());
        let slot: usize = match target {
            Some(slot) => slot,
            None => 0,
        };
        let ghost before = self.voices@;
        let mut voice: Voice = self.voices[slot];
        voice.pluck(self.sample_rate, frequency, velocity);
        self.voices[slot] = voice;
        let mut seed: u32 = self.noise_seed;
        fill_noise(&mut seed, noise, voice.capacity);
        self.noise_seed = seed;
        proof {
            lemma_active_count_update(before, slot as int, voice);
            lemma_active_count_full(before);
            lemma_active_count_bound(before);
        }
        slot
    }

    /// Applies the preset that `code` selects: `0` to `3` name the guitar
    /// types, every other number stands for `0`.
    pub fn set_guitar_profile(&mut self, code: i32)
        ensures
            final(self).well_formed(),
            final(self)@ == (EngineState {
                guitar: guitar_of(code),
                tone: preset_of(guitar_of(code)),
                ..old(self)@
            }),
    {
        proof {
            use_type_invariant(&*self);
        }
        let guitar: GuitarType = GuitarType::from_code(code);
        self.guitar = guitar;
        self.tone = Tone::preset(guitar);
    }

    /// Opens the frame of voice `slot`.
    ///
    /// An idle voice, or a slot that names no voice, yields `None` and
    /// changes nothing.  A ringing voice yields the two positions of its
    /// delay line that the frame reads and its coefficients under the
    /// current tone.  While its envelope lies above `ATTACK_THRESHOLD` it
    /// also yields a draw of attack noise, which advances the noise
    /// generator once.  No voice changes.
    pub fn begin_voice(&mut self, slot: usize) -> (frame: Option<VoiceFrame>)
        ensures
            final(self).well_formed(),
            frame == frame_of(old(self)@, slot),
            final(self)@ == (EngineState {
                noise_seed: seed_after_frame(old(self)@, slot),
                ..old(self)@
            }),
    {
        proof {
            use_type_invariant(&*self);
        }
        if slot >= self.voices.len() {
            return None;
        }
        let voice: Voice = self.voices[slot];
        if !voice.active {
            return None;
        }
        let next: usize = if voice.read_idx + 1 >= voice.delay_len {
            0
        } else {
            voice.read_idx + 1
        };
        let coefficients: Coefficients = voice.coefficients(&self.tone);
        let noise: Option<u32> = if voice.envelope > ATTACK_THRESHOLD {
            let mut seed: u32 = self.noise_seed;
            let draw: u32 = lcg_next(&mut seed);
            self.noise_seed = seed;
            Some(draw)
        } else {
            None
        };
        Some(
            VoiceFrame {
                read: voice.read_idx,
                next,
                frac_delay: voice.frac_delay,
                envelope: voice.envelope,
                coefficients,
                noise,
            },
        )
    }

    /// Closes the frame of voice `slot`, which left the voice at `level`.
    ///
    /// A ringing voice moves its read position on by one, lets its envelope
    /// fall as the current tone has it and goes idle once it has faded; an
    /// idle voice, or a slot that names no voice, changes nothing.  No other
    /// voice changes.
    pub fn end_voice(&mut self, slot: usize, level: u32)
        ensures
            final(self).well_formed(),
            final(self)@ == (EngineState {
                voices: voices_after_frame(old(self)@.voices, old(self)@.tone, slot, level),
                ..old(self)@
            }),
            active_count(final(self)@.voices) <= active_count(old(self)@.voices),
    {
        proof {
            use_type_invariant(&*self);
        }
        if slot >= self.voices.len() {
            return ;
        }
        let ghost before = self.voices@;
        let mut voice: Voice = self.voices[slot];
        if !voice.active {
            return ;
        }
        let coefficients: Coefficients = voice.coefficients(&self.tone);
        voice.step(level, coefficients.attack_decay);
        self.voices[slot] = voice;
        proof {
            lemma_active_count_update(before, slot as int, voice);
        }
    }

    /// Number of voices that ring.
    pub fn active_voices(&self) -> (count: usize)
        ensures
            count == active_count(self@.voices),
            count <= MAX_VOICES,
    {
        count_active(self.voices.as_slice())
    }

    /// The number by which a frame divides the sum of its voices: the number
    /// of ringing voices, and one where none rings.
    pub fn mix_divisor(&self) -> (divisor: usize)
        ensures
            divisor == if active_count(self@.voices) == 0 {
                1
            } else {
                active_count(self@.voices)
            },
            1 <= divisor <= MAX_VOICES,
    {
        let count: usize = count_active(self.voices.as_slice());
        if count == 0 {
            1
        } else {
            count
        }
    }

    /// The slot of the reverb history that tap `lag` of the impulse response
    /// reads: the slot written `lag` frames before the current one.  Tap
    /// zero reads the slot that the current frame writes.
    pub fn reverb_slot(&self, lag: usize) -> (slot: usize)
        requires
            lag < self@.reverb.len,
        ensures
            slot == slot_before(self@.reverb.pos as int, lag as int, self@.reverb.len as int),
            slot < self@.reverb.len,
            lag == 0 ==> slot == self@.reverb.pos,
    {
        proof {
            use_type_invariant(&*self);
        }
        self.reverb.slot(lag)
    }

    /// Ends a frame of the reverb: the write position moves to the next
    /// slot of the history.
    pub fn reverb_advance(&mut self)
        ensures
            final(self).well_formed(),
            final(self)@ == (EngineState {
                reverb: HistoryRing {
                    len: old(self)@.reverb.len,
                    pos: slot_after(
                        old(self)@.reverb.pos as int,
                        1,
                        old(self)@.reverb.len as int,
                    ) as usize,
                },
                ..old(self)@
            }),
    {
        proof {
            use_type_invariant(&*self);
        }
        let mut ring: HistoryRing = self.reverb;
        ring.advance();
        self.reverb = ring;
    }

    /// Whether the engine renders silence: it does at a sample rate of zero.
    pub fn is_silent(&self) -> (silent: bool)
        ensures
            silent == (self@.sample_rate == 0),
    {
        self.sample_rate == 0
    }

    /// Sample rate in hertz.
    pub fn sample_rate(&self) -> (rate: u32)
        ensures
            rate == self@.sample_rate,
    {
        self.sample_rate
    }

    /// State of the noise generator.
    pub fn noise_seed(&self) -> (seed: u32)
        ensures
            seed == self@.noise_seed,
    {
        self.noise_seed
    }

    /// Guitar type of the preset applied last.
    pub fn guitar_type(&self) -> (guitar: GuitarType)
        ensures
            guitar == self@.guitar,
    {
        self.guitar
    }

    /// Current tone parameters.
    pub fn tone(&self) -> (tone: Tone)
        ensures
            tone == self@.tone,
            tone.in_range(),
    {
        proof {
            use_type_invariant(&*self);
        }
        self.tone
    }

    /// Voice `slot`, or `None` where the slot names no voice.
    pub fn voice(&self, slot: usize) -> (voice: Option<Voice>)
        ensures
            voice == if slot < MAX_VOICES {
                Some(self@.voices[slot as int])
            } else {
                None
            },
            voice matches Some(v) ==> v.well_formed(),
    {
        proof {
            use_type_invariant(&*self);
        }
        if slot < self.voices.len() {
            Some(self.voices[slot])
        } else {
            None
        }
    }

    /// Length of the impulse response and of the reverb history.
    pub fn reverb_len(&self) -> (len: usize)
        ensures
            len == self@.reverb.len,
            len == response_length_of(self@.sample_rate),
    {
        proof {
            use_type_invariant(&*self);
        }
        self.reverb.len
    }

    /// Slot of the reverb history that the current frame writes.
    pub fn reverb_pos(&self) -> (pos: usize)
        ensures
            pos == self@.reverb.pos,
            pos < self@.reverb.len,
    {
        proof {
            use_type_invariant(&*self);
        }
        self.reverb.pos
    }
}

/// Makes an engine at `sample_rate` hertz with the first preset applied.
pub fn engine_init(sample_rate: u32) -> (engine: Engine)
    ensures
        engine@ == initial_state(sample_rate),
        engine.well_formed(),
{
    Engine::new(sample_rate)
}

/// Applies the preset that `guitar_type` selects; a number outside `0` to
/// `3` selects the preset of `0`.
pub fn engine_set_guitar_type(engine: &mut Engine, guitar_type: i32)
    ensures
        final(engine).well_formed(),
        final(engine)@ == (EngineState {
            guitar: guitar_of(guitar_type),
            tone: preset_of(guitar_of(guitar_type)),
            ..old(engine)@
        }),
{
    engine.set_guitar_profile(guitar_type);
}

/// Starts a note; see `Engine::excite`.
pub fn engine_note_on(
    engine: &mut Engine,
    frequency: u32,
    velocity: u32,
    noise: &mut Vec<u32>,
) -> (slot: usize)
    ensures
        final(engine).well_formed(),
        is_target(old(engine)@.voices, slot as int),
        final(engine)@ == state_after_note(old(engine)@, slot as int, frequency, velocity),
        final(noise)@ == draws(
            old(engine)@.noise_seed,
            final(engine)@.voices[slot as int].capacity as nat,
        ),
        active_count(final(engine)@.voices) == if active_count(old(engine)@.voices) < MAX_VOICES {
            active_count(old(engine)@.voices) + 1
        } else {
            MAX_VOICES as nat
        },
{
    engine.excite(frequency, velocity, noise)
}

/// Sets the decay, moved into `[DECAY_MIN, DECAY_MAX]`.
pub fn engine_set_decay(engine: &mut Engine, decay: u32)
    ensures
        final(engine).well_formed(),
        final(engine)@ == (EngineState {
            tone: Tone { decay: clamp_of(decay as int, DECAY_MIN, DECAY_MAX), ..old(engine)@.tone },
            ..old(engine)@
        }),
{
    proof {
        use_type_invariant(&*engine);
    }
    engine.tone.decay = clamp(decay as u64, DECAY_MIN, DECAY_MAX);
}

/// Sets the brightness, moved into `[BRIGHTNESS_MIN, BRIGHTNESS_MAX]`.
pub fn engine_set_brightness(engine: &mut Engine, brightness: u32)
    ensures
        final(engine).well_formed(),
        final(engine)@ == (EngineState {
            tone: Tone {
                brightness: clamp_of(brightness as int, BRIGHTNESS_MIN, BRIGHTNESS_MAX),
                ..old(engine)@.tone
            },
            ..old(engine)@
        }),
{
    proof {
        use_type_invariant(&*engine);
    }
    engine.tone.brightness = clamp(brightness as u64, BRIGHTNESS_MIN, BRIGHTNESS_MAX);
}

/// Sets the dispersion, moved into `[DISPERSION_MIN, DISPERSION_MAX]`.
pub fn engine_set_dispersion(engine: &mut Engine, dispersion: u32)
    ensures
        final(engine).well_formed(),
        final(engine)@ == (EngineState {
            tone: Tone {
                dispersion: clamp_of(dispersion as int, DISPERSION_MIN, DISPERSION_MAX),
                ..old(engine)@.tone
            },
            ..old(engine)@
        }),
{
    proof {
        use_type_invariant(&*engine);
    }
    engine.tone.dispersion = clamp(dispersion as u64, DISPERSION_MIN, DISPERSION_MAX);
}

/// Sets the attack decay, moved into `[ATTACK_DECAY_MIN, ATTACK_DECAY_MAX]`.
pub fn engine_set_attack_decay(engine: &mut Engine, attack_decay: u32)
    ensures
        final(engine).well_formed(),
        final(engine)@ == (EngineState {
            tone: Tone {
                attack_decay: clamp_of(attack_decay as int, ATTACK_DECAY_MIN, ATTACK_DECAY_MAX),
                ..old(engine)@.tone
            },
            ..old(engine)@
        }),
{
    proof {
        use_type_invariant(&*engine);
    }
    engine.tone.attack_decay = clamp(attack_decay as u64, ATTACK_DECAY_MIN, ATTACK_DECAY_MAX);
}

/// Sets the reverb mix, moved into `[REVERB_MIX_MIN, REVERB_MIX_MAX]`.
pub fn engine_set_reverb_mix(engine: &mut Engine, mix: u32)
    ensures
        final(engine).well_formed(),
        final(engine)@ == (EngineState {
            tone: Tone {
                reverb_mix: clamp_of(mix as int, REVERB_MIX_MIN, REVERB_MIX_MAX),
                ..old(engine)@.tone
            },
            ..old(engine)@
        }),
{
    proof {
        use_type_invariant(&*engine);
    }
    engine.tone.reverb_mix = clamp(mix as u64, REVERB_MIX_MIN, REVERB_MIX_MAX);
}

/// The state after a note of `frequency` millihertz at `velocity` has taken
/// voice `slot`: that voice is plucked, and the noise generator has moved on
/// by one step for each sample that the voice holds.
pub open spec fn state_after_note(
    state: EngineState,
    slot: int,
    frequency: u32,
    velocity: u32,
) -> EngineState {
    let voice = state.voices[slot].plucked(state.sample_rate, frequency, velocity);
    EngineState {
        voices: state.voices.update(slot, voice),
        noise_seed: lcg_iterate(state.noise_seed, voice.capacity as nat),
        ..state
    }
}

/// What `begin_voice` hands out for voice `slot` of an engine in `state`.
pub open spec fn frame_of(state: EngineState, slot: usize) -> Option<VoiceFrame> {
    if slot < state.voices.len() && state.voices[slot as int].active {
        Some(
            VoiceFrame {
                read: state.voices[slot as int].read_idx,
                next: state.voices[slot as int].next_idx(),
                frac_delay: state.voices[slot as int].frac_delay,
                envelope: state.voices[slot as int].envelope,
                coefficients: state.voices[slot as int].coefficients_of(state.tone),
                noise: if state.voices[slot as int].wants_noise() {
                    Some(draw_of(lcg_step(state.noise_seed)))
                } else {
                    None
                },
            },
        )
    } else {
        None
    }
}

/// The state of the noise generator after `begin_voice` on voice `slot`.
pub open spec fn seed_after_frame(state: EngineState, slot: usize) -> u32 {
    if slot < state.voices.len() && state.voices[slot as int].wants_noise() {
        lcg_step(state.noise_seed)
    } else {
        state.noise_seed
    }
}

/// The voices after `end_voice` on voice `slot` under `tone`.
pub open spec fn voices_after_frame(voices: Seq<Voice>, tone: Tone, slot: usize, level: u32) -> Seq<
    Voice,
> {
    if slot < voices.len() && voices[slot as int].active {
        let voice = voices[slot as int];
        voices.update(slot as int, voice.stepped(level, voice.coefficients_of(tone).attack_decay))
    } else {
        voices
    }
}

/// A new engine is well formed at every sample rate, and none of its voices
/// rings.
pub proof fn lemma_initial_state_well_formed(sample_rate: u32)
    ensures
        initial_state(sample_rate).well_formed(),
        active_count(initial_state(sample_rate).voices) == 0,
{
    let state = initial_state(sample_rate);
    lemma_active_count_zero(state.voices);
}

/// A note takes exactly one voice.  While a voice is idle the note takes an
/// idle one and one more voice rings; once all ring, the note displaces the
/// quietest and as many ring as before.  Every other voice is left as it
/// was, and the engine stays well formed.
pub proof fn lemma_note_takes_one_voice(
    state: EngineState,
    slot: int,
    frequency: u32,
    velocity: u32,
)
    requires
        state.well_formed(),
        is_target(state.voices, slot),
    ensures
        ({
            let after = state_after_note(state, slot, frequency, velocity);
            &&& after.well_formed()
            &&& after.voices[slot].active
            &&& forall|j: int|
                0 <= j < MAX_VOICES && j != slot ==> after.voices[j] == state.voices[j]
            &&& active_count(state.voices) < MAX_VOICES ==> !state.voices[slot].active
                && active_count(after.voices) == active_count(state.voices) + 1
            &&& active_count(state.voices) == MAX_VOICES ==> is_quietest(state.voices, slot)
                && active_count(after.voices) == MAX_VOICES
        }),
{
    let voice = state.voices[slot].plucked(state.sample_rate, frequency, velocity);
    lemma_pluck_keeps_well_formed(state.voices[slot], state.sample_rate, frequency, velocity);
    lemma_active_count_update(state.voices, slot, voice);
    lemma_active_count_full(state.voices);
}

/// A frame leaves the engine well formed and lets no voice start ringing.
pub proof fn lemma_frame_keeps_well_formed(state: EngineState, slot: usize, level: u32)
    requires
        state.well_formed(),
    ensures
        (EngineState {
            voices: voices_after_frame(state.voices, state.tone, slot, level),
            ..state
        }).well_formed(),
        active_count(voices_after_frame(state.voices, state.tone, slot, level)) <= active_count(
            state.voices,
        ),
{
    if slot < state.voices.len() && state.voices[slot as int].active {
        let voice = state.voices[slot as int];
        let attack_decay = voice.coefficients_of(state.tone).attack_decay;
        lemma_active_count_update(state.voices, slot as int, voice.stepped(level, attack_decay));
    }
}

/// While no voice rings, a frame finds nothing to do: no voice opens a
/// frame, the noise generator rests and closing a frame changes no voice.
pub proof fn lemma_idle_engine_is_still(state: EngineState, slot: usize, level: u32)
    requires
        state.well_formed(),
        active_count(state.voices) == 0,
    ensures
        frame_of(state, slot).is_none(),
        seed_after_frame(state, slot) == state.noise_seed,
        voices_after_frame(state.voices, state.tone, slot, level) == state.voices,
{
    lemma_active_count_zero(state.voices);
}

} // verus!
