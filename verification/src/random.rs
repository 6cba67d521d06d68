//! The random draws that place a particle and set its spray.

use vstd::prelude::*;
use crate::units::ONE;

verus! {

/// The four draws behind one particle, each at least 0 and below `ONE`.
#[derive(Clone, Copy, Debug, PartialEq, Eq)]
pub struct ParticleRoll {
    /// Places the particle along the horizontal axis.
    pub left: i64,
    /// Places the particle along the vertical axis.
    pub top: i64,
    /// Sets the horizontal speed the particle starts with.
    pub speed_start: i64,
    /// Sets the horizontal speed the particle ends with.
    pub speed_end: i64,
}

/// `u` stands for a number that is at least 0 and less than 1.
pub open spec fn is_unit(u: i64) -> bool {
    0 <= u < ONE
}

impl ParticleRoll {
    /// Every draw stands for a number that is at least 0 and less than 1.
    pub open spec fn wf(self) -> bool {
        &&& is_unit(self.left)
        &&& is_unit(self.top)
        &&& is_unit(self.speed_start)
        &&& is_unit(self.speed_end)
    }
}

/// Draws 32 bits with `rand::random`, from the generator of the calling thread.
/// Nothing is claimed of the bits: any value may come back, and two calls may differ.
#[verifier::external_body]
fn random_bits() -> (bits: u32) {
    rand::random::<u32>()
}

/// Turns 32 random bits into a fixed-point number that is at least 0 and less
/// than 1, keeping the 24 high bits.
pub fn unit_from_bits(bits: u32) -> (u: i64)
    ensures
        u == bits / 256,
        is_unit(u),
{
    (bits / 256) as i64
}

/// Draws the four numbers for one particle: position left and top, then the
/// starting and the ending speed.
pub fn roll_particle() -> (roll: ParticleRoll)
    ensures
        roll.wf(),
{
    let left: u32 = random_bits();
    let top: u32 = random_bits();
    let speed_start: u32 = random_bits();
    let speed_end: u32 = random_bits();
    roll_from_bits(left, top, speed_start, speed_end)
}

impl ParticleRoll {
    /// The roll that four draws of 32 bits give: each field keeps the 24
    /// high bits of its own draw.
    pub open spec fn of_bits(left: u32, top: u32, speed_start: u32, speed_end: u32) -> ParticleRoll {
        ParticleRoll {
            left: (left / 256) as i64,
            top: (top / 256) as i64,
            speed_start: (speed_start / 256) as i64,
            speed_end: (speed_end / 256) as i64,
        }
    }
}

/// Makes the roll of one particle from four draws of 32 bits, taken in the
/// order in which they are drawn.
pub fn roll_from_bits(left: u32, top: u32, speed_start: u32, speed_end: u32) -> (roll: ParticleRoll)
    ensures
        roll == ParticleRoll::of_bits(left, top, speed_start, speed_end),
        roll.wf(),
{
    ParticleRoll {
        left: unit_from_bits(left),
        top: unit_from_bits(top),
        speed_start: unit_from_bits(speed_start),
        speed_end: unit_from_bits(speed_end),
    }
}

} // verus!
