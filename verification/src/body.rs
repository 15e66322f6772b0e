//! The body of the instrument: five resonant modes.
//!
//! Each mode is a two-pole resonator that the host builds from a centre
//! frequency, a pole radius and a gain.  A radius strictly between zero and
//! one keeps the resonator stable.

use vstd::prelude::*;

verus! {

/// Number of body modes.
pub const BODY_MODES: usize = 5;

/// One resonant mode of the body.
#[derive(Clone, Copy, Debug, PartialEq, Eq)]
pub struct BodyMode {
    /// Centre frequency in hertz.
    pub frequency: u32,
    /// Pole radius, in hundredths.
    pub radius: u32,
    /// Gain, in hundredths.
    pub gain: u32,
}

impl BodyMode {
    /// The pole lies strictly inside the unit circle.
    pub open spec fn stable(self) -> bool {
        0 < self.radius < 100
    }
}

/// The modes from the lowest to the highest: air cavity, top plate,
/// soundboard, bridge and brilliance.
pub open spec fn body_mode_table() -> Seq<BodyMode> {
    seq![
        BodyMode { frequency: 110, radius: 95, gain: 8 },
        BodyMode { frequency: 240, radius: 96, gain: 10 },
        BodyMode { frequency: 530, radius: 97, gain: 8 },
        BodyMode { frequency: 1200, radius: 98, gain: 3 },
        BodyMode { frequency: 2400, radius: 92, gain: 2 },
    ]
}

/// The modes of the body, from the lowest to the highest.
pub fn body_modes() -> (modes: Vec<BodyMode>)
    ensures
        modes@ == body_mode_table(),
        modes@.len() == BODY_MODES,
        forall|i: int| 0 <= i < modes@.len() ==> (#[trigger] modes@[i]).stable(),
{
    let mut modes: Vec<BodyMode> = Vec::new();
    modes.push(BodyMode { frequency: 110, radius: 95, gain: 8 });
    modes.push(BodyMode { frequency: 240, radius: 96, gain: 10 });
    modes.push(BodyMode { frequency: 530, radius: 97, gain: 8 });
    modes.push(BodyMode { frequency: 1200, radius: 98, gain: 3 });
    modes.push(BodyMode { frequency: 2400, radius: 92, gain: 2 });
    modes
}

} // verus!
