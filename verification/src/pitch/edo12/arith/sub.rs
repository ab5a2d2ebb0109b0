use crate::num::{mod_add_u8, wrap_i8, wrap_to_i8};
use crate::pitch::edo12::base::{Acci, OPitch, OStep, Pitch, Step};
use crate::pitch::edo12::interval::{IntervalDeg, OInterval};
use std::ops::Sub;
use vstd::prelude::*;

verus! {

impl OStep {
    /// The difference, counted round the cycle of seven.
    pub open spec fn minus(self, rhs: OStep) -> OStep {
        OStep::of_int(self@ - rhs@)
    }
}

impl vstd::std_specs::ops::SubSpecImpl for OStep {
    open spec fn obeys_sub_spec() -> bool {
        true
    }

    open spec fn sub_req(self, rhs: OStep) -> bool {
        true
    }

    open spec fn sub_spec(self, rhs: OStep) -> OStep {
        self.minus(rhs)
    }
}

impl Sub for OStep {
    type Output = OStep;

    fn sub(self, rhs: OStep) -> (difference: OStep)
        ensures
            difference == self.minus(rhs),
    {
        let back: u8 = if rhs.index() == 0 {
            0
        } else {
            7 - rhs.index()
        };
        OStep::from_index(mod_add_u8(self.index(), back, 7)).unwrap()
    }
}

impl Step {
    /// The difference; where it does not fit, it wraps around.
    pub open spec fn minus(self, rhs: Step) -> Step {
        Step(wrap_i8(self@ - rhs@) as i8)
    }
}

impl vstd::std_specs::ops::SubSpecImpl for Step {
    open spec fn obeys_sub_spec() -> bool {
        true
    }

    open spec fn sub_req(self, rhs: Step) -> bool {
        true
    }

    open spec fn sub_spec(self, rhs: Step) -> Step {
        self.minus(rhs)
    }
}

impl Sub for Step {
    type Output = Step;

    fn sub(self, rhs: Step) -> (difference: Step)
        ensures
            difference == self.minus(rhs),
    {
        Step(wrap_to_i8(self.0 as i32 - rhs.0 as i32))
    }
}

impl Acci {
    /// The difference; where it does not fit, it wraps around.
    pub open spec fn minus(self, rhs: Acci) -> Acci {
        Acci(wrap_i8(self@ - rhs@) as i8)
    }
}

impl vstd::std_specs::ops::SubSpecImpl for Acci {
    open spec fn obeys_sub_spec() -> bool {
        true
    }

    open spec fn sub_req(self, rhs: Acci) -> bool {
        true
    }

    open spec fn sub_spec(self, rhs: Acci) -> Acci {
        self.minus(rhs)
    }
}

impl Sub for Acci {
    type Output = Acci;

    fn sub(self, rhs: Acci) -> (difference: Acci)
        ensures
            difference == self.minus(rhs),
    {
        Acci(wrap_to_i8(self.0 as i32 - rhs.0 as i32))
    }
}

impl OPitch {
    /// Steps and tones are subtracted independently; where the step falls
    /// below C it borrows an octave, and the tone twelve semitones with it.
    pub open spec fn minus(self, rhs: OPitch) -> OPitch {
        OPitch::of_model(self@.minus(rhs@).reduce().wrap_tone())
    }
}

impl vstd::std_specs::ops::SubSpecImpl for OPitch {
    open spec fn obeys_sub_spec() -> bool {
        true
    }

    open spec fn sub_req(self, rhs: OPitch) -> bool {
        true
    }

    open spec fn sub_spec(self, rhs: OPitch) -> OPitch {
        self.minus(rhs)
    }
}

impl Sub for OPitch {
    type Output = OPitch;

    fn sub(self, rhs: OPitch) -> (difference: OPitch)
        ensures
            difference == self.minus(rhs),
    {
        let tone: i32 = self.tone as i32 - rhs.tone as i32;
        if self.step.index() >= rhs.step.index() {
            let step = self.step.index() - rhs.step.index();
            OPitch { step: OStep::from_index(step).unwrap(), tone: wrap_to_i8(tone) }
        } else {
            let step = self.step.index() + (7 - rhs.step.index());
            OPitch { step: OStep::from_index(step).unwrap(), tone: wrap_to_i8(tone + 12) }
        }
    }
}

impl Pitch {
    /// Steps and tones are subtracted independently.
    pub open spec fn minus(self, rhs: Pitch) -> Pitch {
        Pitch::of_model(self@.minus(rhs@).wrap())
    }
}

impl vstd::std_specs::ops::SubSpecImpl for Pitch {
    open spec fn obeys_sub_spec() -> bool {
        true
    }

    open spec fn sub_req(self, rhs: Pitch) -> bool {
        true
    }

    open spec fn sub_spec(self, rhs: Pitch) -> Pitch {
        self.minus(rhs)
    }
}

impl Sub for Pitch {
    type Output = Pitch;

    fn sub(self, rhs: Pitch) -> (difference: Pitch)
        ensures
            difference == self.minus(rhs),
    {
        Pitch {
            step: Step(wrap_to_i8(self.step.0 as i32 - rhs.step.0 as i32)),
            tone: wrap_to_i8(self.tone as i32 - rhs.tone as i32),
        }
    }
}

impl IntervalDeg {
    /// The difference; where it does not fit, it wraps around.
    pub open spec fn minus(self, rhs: IntervalDeg) -> IntervalDeg {
        IntervalDeg(wrap_i8(self@ - rhs@) as i8)
    }
}

impl vstd::std_specs::ops::SubSpecImpl for IntervalDeg {
    open spec fn obeys_sub_spec() -> bool {
        true
    }

    open spec fn sub_req(self, rhs: IntervalDeg) -> bool {
        true
    }

    open spec fn sub_spec(self, rhs: IntervalDeg) -> IntervalDeg {
        self.minus(rhs)
    }
}

impl Sub for IntervalDeg {
    type Output = IntervalDeg;

    fn sub(self, rhs: IntervalDeg) -> (difference: IntervalDeg)
        ensures
            difference == self.minus(rhs),
    {
        IntervalDeg(wrap_to_i8(self.0 as i32 - rhs.0 as i32))
    }
}

impl OInterval {
    /// The interval from C up to the difference of the pitches that lie
    /// the two intervals above C.
    pub open spec fn minus(self, rhs: OInterval) -> OInterval {
        OInterval::of_opitch(OPitch::of_ointerval(self).minus(OPitch::of_ointerval(rhs)))
    }
}

impl vstd::std_specs::ops::SubSpecImpl for OInterval {
    open spec fn obeys_sub_spec() -> bool {
        true
    }

    open spec fn sub_req(self, rhs: OInterval) -> bool {
        true
    }

    open spec fn sub_spec(self, rhs: OInterval) -> OInterval {
        self.minus(rhs)
    }
}

impl Sub for OInterval {
    type Output = OInterval;

    fn sub(self, rhs: OInterval) -> (difference: OInterval)
        ensures
            difference == self.minus(rhs),
    {
        OInterval::from(OPitch::from(self) - OPitch::from(rhs))
    }
}

} // verus!
