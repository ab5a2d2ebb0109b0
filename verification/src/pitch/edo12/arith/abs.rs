use crate::num::{wrap_i8, wrap_to_i8};
use crate::pitch::edo12::base::{Pitch, Step};
use crate::pitch::edo12::interval::{Interval, IntervalDeg};
use vstd::prelude::*;

verus! {

impl Step {
    /// The step with its direction dropped.
    pub open spec fn abs_spec(self) -> Step {
        if self.0 < 0 {
            Step(wrap_i8(-self@) as i8)
        } else {
            self
        }
    }

    /// The step counted upwards, whichever way it was counted. As the
    /// operators do, this wraps around on the one step that has no
    /// positive counterpart.
    pub fn abs(self) -> (magnitude: Step)
        ensures
            magnitude == self.abs_spec(),
    {
        if self.0 < 0 {
            Step(wrap_to_i8(-(self.0 as i32)))
        } else {
            self
        }
    }
}

impl Pitch {
    /// The pitch measured upwards: itself where its step is positive, its
    /// negation where its step is negative, and on step 0 the tone with
    /// its sign dropped.
    pub open spec fn abs_spec(self) -> Pitch {
        if self.step.0 > 0 {
            self
        } else if self.step.0 < 0 {
            Pitch::of_model(self@.negated().wrap())
        } else if self.tone < 0 {
            Pitch { step: Step(0), tone: wrap_i8(-self.tone) as i8 }
        } else {
            self
        }
    }

    /// The interval from C of octave 0 to this pitch, measured upwards. As
    /// the operators do, this wraps around where a field has no positive
    /// counterpart.
    pub fn abs(self) -> (magnitude: Pitch)
        ensures
            magnitude == self.abs_spec(),
    {
        if self.step.0 > 0 {
            self
        } else if self.step.0 < 0 {
            Pitch {
                step: Step(wrap_to_i8(-(self.step.0 as i32))),
                tone: wrap_to_i8(-(self.tone as i32)),
            }
        } else if self.tone < 0 {
            Pitch { step: Step(0), tone: wrap_to_i8(-(self.tone as i32)) }
        } else {
            Pitch { step: Step(0), tone: self.tone }
        }
    }
}

impl IntervalDeg {
    /// The degree with its direction dropped.
    pub open spec fn abs_spec(self) -> IntervalDeg {
        if self.0 < 0 {
            IntervalDeg(wrap_i8(-self@) as i8)
        } else {
            self
        }
    }

    /// The degree counted upwards, whichever way it was counted. As the
    /// operators do, this wraps around on the one degree that has no
    /// positive counterpart.
    pub fn abs(self) -> (magnitude: IntervalDeg)
        ensures
            magnitude == self.abs_spec(),
    {
        if self.0 < 0 {
            IntervalDeg(wrap_to_i8(-(self.0 as i32)))
        } else {
            self
        }
    }
}

impl Interval {
    /// The interval measured upwards: the interval from C of octave 0 to
    /// the `abs` of the pitch that lies this interval above it.
    pub open spec fn abs_spec(self) -> Interval {
        Interval::of_pitch(Pitch::of_interval(self).abs_spec())
    }

    pub fn abs(self) -> (magnitude: Interval)
        ensures
            magnitude == self.abs_spec(),
    {
        Interval::from(Pitch::from(self).abs())
    }
}

} // verus!
