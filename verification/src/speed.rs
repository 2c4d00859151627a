//! Motor speed values and their translation to PWM pulse widths.
//!
//! A speed is a fraction of full power in the closed range from minus one
//! (full reverse) to one (full forward).  Because the wire protocol rounds
//! every received speed to four decimal places, a speed is represented
//! exactly as a signed count of ten-thousandths; no precision available to
//! the rest of the system is lost.

use vstd::prelude::*;

verus! {

/// Number of ten-thousandths in a full-scale speed of one.
pub const SPEED_SCALE: i32 = 10000;

/// PWM period in milliseconds (50 Hz).
pub const PERIOD_MS: u64 = 20;

/// Pulse width of the neutral (stand-still) position, in microseconds.
pub const PULSE_NEUTRAL_US: u64 = 1500;

/// Difference between the neutral pulse width and either full-scale pulse
/// width, in microseconds.
pub const PULSE_DELTA_US: u64 = 500;

/// The sense in which a motor is being driven.
#[derive(Debug, Clone, Copy, PartialEq, Eq, Structural)]
pub enum Direction {
    Forward,
    Neutral,
    Backward,
}

/// A validated motor speed: a count of ten-thousandths of full power,
/// always within one full scale of zero.
#[derive(Debug, Clone, Copy, PartialEq, Eq, Structural)]
pub struct Speed {
    ten_thousandths: i32,
}

/// The direction in which a speed of `tt` ten-thousandths drives a motor.
pub open spec fn spec_direction(tt: int) -> Direction {
    if tt < 0 {
        Direction::Backward
    } else if tt > 0 {
        Direction::Forward
    } else {
        Direction::Neutral
    }
}

/// The pulse width commanded by a speed of `tt` ten-thousandths: the
/// neutral width plus the full-scale delta scaled by the speed, rounded
/// to the nearest microsecond (half a microsecond rounds away from zero).
pub open spec fn spec_pulse_micros(tt: int) -> int {
    if tt >= 0 {
        1500 + (tt + 10) / 20
    } else {
        1500 - ((-tt + 10) / 20)
    }
}

impl Speed {
    #[verifier::type_invariant]
    pub closed spec fn inv(self) -> bool {
        -10000 <= self.ten_thousandths <= 10000
    }

    /// The value of this speed as a count of ten-thousandths of full power.
    pub closed spec fn view(self) -> int {
        self.ten_thousandths as int
    }

    /// Creates a new [`Speed`] from a count of ten-thousandths of full
    /// power.  Succeeds exactly when the count is within one full scale of
    /// zero, so `new(10000)` and `new(-10000)` succeed while `new(10001)`
    /// and `new(-10001)` fail.
    pub fn new(ten_thousandths: i32) -> (r: Option<Speed>)
        ensures
            match r {
                Some(s) => -10000 <= ten_thousandths <= 10000 && s@ == ten_thousandths as int,
                None => !(-10000 <= ten_thousandths <= 10000),
            },
    {
        if -10000 <= ten_thousandths && ten_thousandths <= 10000 {
            Some(Speed { ten_thousandths })
        } else {
            None
        }
    }

    /// Creates a new [`Speed`] with zero speed.
    pub fn neutral() -> (r: Speed)
        ensures
            r@ == 0,
    {
        Speed { ten_thousandths: 0 }
    }

    /// Creates a new [`Speed`] with full forward force.
    pub fn forward() -> (r: Speed)
        ensures
            r@ == 10000,
    {
        Speed { ten_thousandths: 10000 }
    }

    /// Creates a new [`Speed`] with full reverse force.
    pub fn backward() -> (r: Speed)
        ensures
            r@ == -10000,
    {
        Speed { ten_thousandths: -10000 }
    }

    /// The value of this speed as a count of ten-thousandths of full
    /// power, always within one full scale of zero.
    pub fn ten_thousandths(&self) -> (r: i32)
        ensures
            r == self@,
            -10000 <= r <= 10000,
    {
        proof {
            use_type_invariant(self);
        }
        self.ten_thousandths
    }

    /// Returns the direction of this [`Speed`].
    pub fn direction(&self) -> (r: Direction)
        ensures
            r == spec_direction(self@),
    {
        if self.ten_thousandths < 0 {
            Direction::Backward
        } else if self.ten_thousandths > 0 {
            Direction::Forward
        } else {
            Direction::Neutral
        }
    }

    /// Returns the PWM pulse width commanded by this [`Speed`], in
    /// microseconds: neutral maps to 1500, full forward to 2000, full
    /// reverse to 1000.
    pub fn pulse_micros(&self) -> (r: u64)
        ensures
            r == spec_pulse_micros(self@),
            1000 <= r <= 2000,
    {
        proof {
            use_type_invariant(self);
        }
        if self.ten_thousandths >= 0 {
            let delta: u32 = (self.ten_thousandths as u32 + 10) / 20;
            1500 + delta as u64
        } else {
            let magnitude: u32 = (-self.ten_thousandths) as u32;
            let delta: u32 = (magnitude + 10) / 20;
            1500 - delta as u64
        }
    }
}

} // verus!
