//! Timbre: the five tone parameters, their ranges and the guitar presets.
//!
//! Parameters are fixed-point numbers, so `997_800_000` stands for
//! `0.9978`.  Every value is kept inside the range of its parameter; a
//! value outside is moved to the nearest bound.

use vstd::prelude::*;
use crate::fixed::{clamp, clamp_of};

verus! {

/// Lower bound of the decay.
pub const DECAY_MIN: u32 = 950_000_000;

/// Upper bound of the decay.
pub const DECAY_MAX: u32 = 999_900_000;

/// Lower bound of the brightness.
pub const BRIGHTNESS_MIN: u32 = 0;

/// Upper bound of the brightness.
pub const BRIGHTNESS_MAX: u32 = 1_000_000_000;

/// Lower bound of the dispersion.
pub const DISPERSION_MIN: u32 = 0;

/// Upper bound of the dispersion.
pub const DISPERSION_MAX: u32 = 500_000_000;

/// Lower bound of the attack decay.
pub const ATTACK_DECAY_MIN: u32 = 950_000_000;

/// Upper bound of the attack decay.
pub const ATTACK_DECAY_MAX: u32 = 999_000_000;

/// Lower bound of the reverb mix.
pub const REVERB_MIX_MIN: u32 = 0;

/// Upper bound of the reverb mix.
pub const REVERB_MIX_MAX: u32 = 900_000_000;

/// The kind of guitar that a preset imitates.
#[derive(Clone, Copy, Debug, PartialEq, Eq, Structural)]
pub enum GuitarType {
    /// Steel strings, tight and bright.
    SteelBright,
    /// Steel strings, rounder and darker.
    SteelWarm,
    /// Nylon strings, soft attack and long sustain.
    Nylon,
    /// Large-bodied steel guitar.
    JumboSteel,
}

/// The guitar type that the number `code` selects: `0` to `3` in the order
/// of the variants, and the first variant for every other number.
pub open spec fn guitar_of(code: i32) -> GuitarType {
    if code == 1 {
        GuitarType::SteelWarm
    } else if code == 2 {
        GuitarType::Nylon
    } else if code == 3 {
        GuitarType::JumboSteel
    } else {
        GuitarType::SteelBright
    }
}

impl GuitarType {
    /// The number of this guitar type.
    pub open spec fn code_of(self) -> i32 {
        match self {
            GuitarType::SteelBright => 0,
            GuitarType::SteelWarm => 1,
            GuitarType::Nylon => 2,
            GuitarType::JumboSteel => 3,
        }
    }

    /// The guitar type that `code` selects; an unknown number selects
    /// `SteelBright`.
    pub fn from_code(code: i32) -> (guitar: GuitarType)
        ensures
            guitar == guitar_of(code),
            0 <= code <= 3 ==> guitar.code_of() == code,
            !(0 <= code <= 3) ==> guitar == GuitarType::SteelBright,
    {
        match code {
            1 => GuitarType::SteelWarm,
            2 => GuitarType::Nylon,
            3 => GuitarType::JumboSteel,
            _ => GuitarType::SteelBright,
        }
    }

    /// The number of this guitar type, between `0` and `3`.
    pub fn code(self) -> (code: i32)
        ensures
            code == self.code_of(),
            0 <= code <= 3,
            guitar_of(code) == self,
    {
        match self {
            GuitarType::SteelBright => 0,
            GuitarType::SteelWarm => 1,
            GuitarType::Nylon => 2,
            GuitarType::JumboSteel => 3,
        }
    }
}

/// The five tone parameters, each a fixed-point number.
#[derive(Clone, Copy, Debug, PartialEq, Eq)]
pub struct Tone {
    /// Feedback gain of the string loop.
    pub decay: u32,
    /// Share of the unfiltered signal in the feedback.
    pub brightness: u32,
    /// Strength of the all-pass that detunes the overtones.
    pub dispersion: u32,
    /// Per-frame factor by which the attack envelope falls.
    pub attack_decay: u32,
    /// Share of the reverberated signal in the output.
    pub reverb_mix: u32,
}

/// The preset of a guitar type, as written in the table.
pub open spec fn preset_of(guitar: GuitarType) -> Tone {
    match guitar {
        GuitarType::SteelBright => Tone {
            decay: 997_800_000,
            brightness: 800_000_000,
            dispersion: 220_000_000,
            attack_decay: 986_000_000,
            reverb_mix: 140_000_000,
        },
        GuitarType::SteelWarm => Tone {
            decay: 998_200_000,
            brightness: 600_000_000,
            dispersion: 160_000_000,
            attack_decay: 987_000_000,
            reverb_mix: 160_000_000,
        },
        GuitarType::Nylon => Tone {
            decay: 998_500_000,
            brightness: 450_000_000,
            dispersion: 70_000_000,
            attack_decay: 989_000_000,
            reverb_mix: 120_000_000,
        },
        GuitarType::JumboSteel => Tone {
            decay: 998_700_000,
            brightness: 700_000_000,
            dispersion: 200_000_000,
            attack_decay: 985_000_000,
            reverb_mix: 180_000_000,
        },
    }
}

impl Tone {
    /// Every parameter lies in its range.
    pub open spec fn in_range(self) -> bool {
        &&& DECAY_MIN <= self.decay <= DECAY_MAX
        &&& BRIGHTNESS_MIN <= self.brightness <= BRIGHTNESS_MAX
        &&& DISPERSION_MIN <= self.dispersion <= DISPERSION_MAX
        &&& ATTACK_DECAY_MIN <= self.attack_decay <= ATTACK_DECAY_MAX
        &&& REVERB_MIX_MIN <= self.reverb_mix <= REVERB_MIX_MAX
    }

    /// The tone with every parameter moved into its range.
    pub open spec fn clamped_of(self) -> Tone {
        Tone {
            decay: clamp_of(self.decay as int, DECAY_MIN, DECAY_MAX),
            brightness: clamp_of(self.brightness as int, BRIGHTNESS_MIN, BRIGHTNESS_MAX),
            dispersion: clamp_of(self.dispersion as int, DISPERSION_MIN, DISPERSION_MAX),
            attack_decay: clamp_of(self.attack_decay as int, ATTACK_DECAY_MIN, ATTACK_DECAY_MAX),
            reverb_mix: clamp_of(self.reverb_mix as int, REVERB_MIX_MIN, REVERB_MIX_MAX),
        }
    }

    /// Moves every parameter into its range; a tone already in range is
    /// returned unchanged.
    pub fn clamped(self) -> (tone: Tone)
        ensures
            tone == self.clamped_of(),
            tone.in_range(),
            self.in_range() ==> tone == self,
    {
        Tone {
            decay: clamp(self.decay as u64, DECAY_MIN, DECAY_MAX),
            brightness: clamp(self.brightness as u64, BRIGHTNESS_MIN, BRIGHTNESS_MAX),
            dispersion: clamp(self.dispersion as u64, DISPERSION_MIN, DISPERSION_MAX),
            attack_decay: clamp(self.attack_decay as u64, ATTACK_DECAY_MIN, ATTACK_DECAY_MAX),
            reverb_mix: clamp(self.reverb_mix as u64, REVERB_MIX_MIN, REVERB_MIX_MAX),
        }
    }

    /// The preset of `guitar`.
    pub fn preset(guitar: GuitarType) -> (tone: Tone)
        ensures
            tone == preset_of(guitar),
            tone.in_range(),
    {
        let table: Tone = match guitar {
            GuitarType::SteelBright => Tone {
                decay: 997_800_000,
                brightness: 800_000_000,
                dispersion: 220_000_000,
                attack_decay: 986_000_000,
                reverb_mix: 140_000_000,
            },
            GuitarType::SteelWarm => Tone {
                decay: 998_200_000,
                brightness: 600_000_000,
                dispersion: 160_000_000,
                attack_decay: 987_000_000,
                reverb_mix: 160_000_000,
            },
            GuitarType::Nylon => Tone {
                decay: 998_500_000,
                brightness: 450_000_000,
                dispersion: 70_000_000,
                attack_decay: 989_000_000,
                reverb_mix: 120_000_000,
            },
            GuitarType::JumboSteel => Tone {
                decay: 998_700_000,
                brightness: 700_000_000,
                dispersion: 200_000_000,
                attack_decay: 985_000_000,
                reverb_mix: 180_000_000,
            },
        };
        table.clamped()
    }
}

/// Every preset lies inside the parameter ranges, so clamping leaves it as
/// the table gives it.
pub proof fn lemma_presets_in_range(guitar: GuitarType)
    ensures
        preset_of(guitar).in_range(),
        preset_of(guitar).clamped_of() == preset_of(guitar),
{
}

/// A number that names no guitar type selects the same preset as `0`.
pub proof fn lemma_unknown_code_is_default(code: i32)
    requires
        !(0 <= code <= 3),
    ensures
        preset_of(guitar_of(code)) == preset_of(guitar_of(0)),
{
}

/// Clamping twice is clamping once.
pub proof fn lemma_clamped_idempotent(tone: Tone)
    ensures
        tone.clamped_of().in_range(),
        tone.clamped_of().clamped_of() == tone.clamped_of(),
{
}

} // verus!
