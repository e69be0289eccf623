//! The two-position sweep: the servo is sent from one end stop to the other
//! and back, one move per step.

use crate::laws::lemma_duty_at_end_stops;
use crate::servo::{
    angle_to_duty, duty_of_bits, max_duty, min_duty, valid_angle,
    MAX_ANGLE_BITS,
};
use vstd::prelude::*;

verus! {

/// Time between two moves, in milliseconds.
pub const SWEEP_INTERVAL_MS: u32 = 2000;

/// One of the two ends of the servo's travel.
#[derive(Clone, Copy, Debug, PartialEq, Eq, Structural)]
pub enum EndStop {
    /// 0 degrees.
    Zero,
    /// `SERVO_MAX_ANGLE` degrees.
    Max,
}

impl EndStop {
    /// The binary32 pattern of the end stop's angle.
    pub open spec fn angle(self) -> u32 {
        match self {
            EndStop::Zero => 0,
            EndStop::Max => MAX_ANGLE_BITS,
        }
    }

    /// The other end stop.
    pub open spec fn other(self) -> EndStop {
        match self {
            EndStop::Zero => EndStop::Max,
            EndStop::Max => EndStop::Zero,
        }
    }

    /// The binary32 pattern of the end stop's angle, which is a valid angle.
    pub fn angle_bits(self) -> (bits: u32)
        ensures
            bits == self.angle(),
            valid_angle(bits),
    {
        proof {
            lemma_duty_at_end_stops();
        }
        match self {
            EndStop::Zero => 0,
            EndStop::Max => MAX_ANGLE_BITS,
        }
    }

    /// The other end stop.
    pub fn opposite(self) -> (stop: EndStop)
        ensures
            stop == self.other(),
    {
        match self {
            EndStop::Zero => EndStop::Max,
            EndStop::Max => EndStop::Zero,
        }
    }

    /// The duty value that sends the servo to the end stop: that of the
    /// shortest pulse at `Zero`, that of the longest at `Max`.
    pub fn duty(self) -> (duty: u32)
        ensures
            duty == duty_of_bits(self.angle()),
            duty == match self {
                EndStop::Zero => min_duty(),
                EndStop::Max => max_duty(),
            },
    {
        proof {
            lemma_duty_at_end_stops();
        }
        angle_to_duty(self.angle_bits())
    }
}

/// A sweep in progress: the end stop that the servo was last sent to.
pub struct Sweep {
    position: EndStop,
}

impl Sweep {
    /// The end stop that the servo was last sent to.
    pub closed spec fn at(self) -> EndStop {
        self.position
    }

    /// A sweep that starts at 0 degrees.
    pub fn new() -> (sweep: Sweep)
        ensures
            sweep.at() == EndStop::Zero,
    {
        Sweep { position: EndStop::Zero }
    }

    /// The end stop that the servo was last sent to.
    pub fn position(&self) -> (stop: EndStop)
        ensures
            stop == self.at(),
    {
        self.position
    }

    /// Turns to the other end stop and returns the duty value that sends the
    /// servo there.
    pub fn advance(&mut self) -> (duty: u32)
        ensures
            final(self).at() == old(self).at().other(),
            duty == duty_of_bits(final(self).at().angle()),
    {
        self.position = self.position.opposite();
        self.position.duty()
    }
}

/// The sweep has period two: the other end stop of the other end stop is the
/// one started from, and the two end stops differ.
pub proof fn lemma_sweep_alternates(stop: EndStop)
    ensures
        stop.other() != stop,
        stop.other().other() == stop,
{
}

} // verus!
