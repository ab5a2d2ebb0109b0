use crate::num::{wrap_i8, wrap_to_i8};
use crate::pitch::edo12::base::{Acci, OPitch, OStep, Pitch, Step};
use crate::pitch::edo12::interval::{
    Interval, IntervalDeg, IntervalQual, OInterval, OIntervalDeg,
};
use std::ops::Neg;
use vstd::prelude::*;

verus! {

impl OStep {
    /// The step that adds up with this one to C: C itself for C, else the
    /// step numbered 7 less this one's number.
    pub open spec fn negated(self) -> OStep {
        OStep::of_int(-self@)
    }
}

impl vstd::std_specs::ops::NegSpecImpl for OStep {
    open spec fn obeys_neg_spec() -> bool {
        true
    }

    open spec fn neg_req(self) -> bool {
        true
    }

    open spec fn neg_spec(self) -> OStep {
        self.negated()
    }
}

impl Neg for OStep {
    type Output = OStep;

    fn neg(self) -> (negated: OStep)
        ensures
            negated == self.negated(),
    {
        match self {
            OStep::C => self,
            step => OStep::from_index(7 - step.index()).unwrap(),
        }
    }
}

impl Step {
    /// The negation; where it does not fit, it wraps around.
    pub open spec fn negated(self) -> Step {
        Step(wrap_i8(-self@) as i8)
    }
}

impl vstd::std_specs::ops::NegSpecImpl for Step {
    open spec fn obeys_neg_spec() -> bool {
        true
    }

    open spec fn neg_req(self) -> bool {
        true
    }

    open spec fn neg_spec(self) -> Step {
        self.negated()
    }
}

impl Neg for Step {
    type Output = Step;

    fn neg(self) -> (negated: Step)
        ensures
            negated == self.negated(),
    {
        Step(wrap_to_i8(-(self.0 as i32)))
    }
}

impl Acci {
    /// The negation; where it does not fit, it wraps around.
    pub open spec fn negated(self) -> Acci {
        Acci(wrap_i8(-self@) as i8)
    }
}

impl vstd::std_specs::ops::NegSpecImpl for Acci {
    open spec fn obeys_neg_spec() -> bool {
        true
    }

    open spec fn neg_req(self) -> bool {
        true
    }

    open spec fn neg_spec(self) -> Acci {
        self.negated()
    }
}

impl Neg for Acci {
    type Output = Acci;

    fn neg(self) -> (negated: Acci)
        ensures
            negated == self.negated(),
    {
        Acci(wrap_to_i8(-(self.0 as i32)))
    }
}

impl OPitch {
    /// The pitch that adds up with this one to C: on C the tone changes
    /// its sign; on any other step the step is negated and the tone is
    /// taken from twelve.
    pub open spec fn negated(self) -> OPitch {
        OPitch::of_model(self@.negated().reduce().wrap_tone())
    }
}

impl vstd::std_specs::ops::NegSpecImpl for OPitch {
    open spec fn obeys_neg_spec() -> bool {
        true
    }

    open spec fn neg_req(self) -> bool {
        true
    }

    open spec fn neg_spec(self) -> OPitch {
        self.negated()
    }
}

impl Neg for OPitch {
    type Output = OPitch;

    fn neg(self) -> (negated: OPitch)
        ensures
            negated == self.negated(),
    {
        match self.step {
            OStep::C => OPitch { step: OStep::C, tone: wrap_to_i8(-(self.tone as i32)) },
            step => OPitch {
                step: OStep::from_index(7 - step.index()).unwrap(),
                tone: wrap_to_i8(12 - self.tone as i32),
            },
        }
    }
}

impl Pitch {
    /// The negation; where it does not fit, it wraps around.
    pub open spec fn negated(self) -> Pitch {
        Pitch::of_model(self@.negated().wrap())
    }
}

impl vstd::std_specs::ops::NegSpecImpl for Pitch {
    open spec fn obeys_neg_spec() -> bool {
        true
    }

    open spec fn neg_req(self) -> bool {
        true
    }

    open spec fn neg_spec(self) -> Pitch {
        self.negated()
    }
}

impl Neg for Pitch {
    type Output = Pitch;

    fn neg(self) -> (negated: Pitch)
        ensures
            negated == self.negated(),
    {
        Pitch {
            step: Step(wrap_to_i8(-(self.step.0 as i32))),
            tone: wrap_to_i8(-(self.tone as i32)),
        }
    }
}

impl OIntervalDeg {
    /// The degree that adds up with this one to an octave, or the unison
    /// for the unison.
    pub open spec fn negated(self) -> OIntervalDeg {
        OIntervalDeg::of_int(-self@)
    }
}

impl vstd::std_specs::ops::NegSpecImpl for OIntervalDeg {
    open spec fn obeys_neg_spec() -> bool {
        true
    }

    open spec fn neg_req(self) -> bool {
        true
    }

    open spec fn neg_spec(self) -> OIntervalDeg {
        self.negated()
    }
}

impl Neg for OIntervalDeg {
    type Output = OIntervalDeg;

    fn neg(self) -> (negated: OIntervalDeg)
        ensures
            negated == self.negated(),
    {
        OIntervalDeg::from(OStep::from(self).neg())
    }
}

impl IntervalDeg {
    /// The negation; where it does not fit, it wraps around.
    pub open spec fn negated(self) -> IntervalDeg {
        IntervalDeg(wrap_i8(-self@) as i8)
    }
}

impl vstd::std_specs::ops::NegSpecImpl for IntervalDeg {
    open spec fn obeys_neg_spec() -> bool {
        true
    }

    open spec fn neg_req(self) -> bool {
        true
    }

    open spec fn neg_spec(self) -> IntervalDeg {
        self.negated()
    }
}

impl Neg for IntervalDeg {
    type Output = IntervalDeg;

    fn neg(self) -> (negated: IntervalDeg)
        ensures
            negated == self.negated(),
    {
        IntervalDeg(wrap_to_i8(-(self.0 as i32)))
    }
}

impl IntervalQual {
    /// The quality of the same interval measured downwards: augmented and
    /// diminished change places, as do major and minor; perfect stays.
    pub open spec fn negated(self) -> IntervalQual {
        match self {
            IntervalQual::Augmented(n) => IntervalQual::Diminished(n),
            IntervalQual::Major => IntervalQual::Minor,
            IntervalQual::Perfect => IntervalQual::Perfect,
            IntervalQual::Minor => IntervalQual::Major,
            IntervalQual::Diminished(n) => IntervalQual::Augmented(n),
        }
    }
}

impl vstd::std_specs::ops::NegSpecImpl for IntervalQual {
    open spec fn obeys_neg_spec() -> bool {
        true
    }

    open spec fn neg_req(self) -> bool {
        true
    }

    open spec fn neg_spec(self) -> IntervalQual {
        self.negated()
    }
}

impl Neg for IntervalQual {
    type Output = IntervalQual;

    fn neg(self) -> (negated: IntervalQual)
        ensures
            negated == self.negated(),
    {
        match self {
            IntervalQual::Augmented(n) => IntervalQual::Diminished(n),
            IntervalQual::Major => IntervalQual::Minor,
            IntervalQual::Perfect => IntervalQual::Perfect,
            IntervalQual::Minor => IntervalQual::Major,
            IntervalQual::Diminished(n) => IntervalQual::Augmented(n),
        }
    }
}

impl OInterval {
    /// The inversion of the interval: degree and quality are each negated.
    pub open spec fn negated(self) -> OInterval {
        OInterval::of_parts(
            OIntervalDeg::of_int(self@.deg).negated(),
            self@.qual.negated(),
        )
    }
}

impl vstd::std_specs::ops::NegSpecImpl for OInterval {
    open spec fn obeys_neg_spec() -> bool {
        true
    }

    open spec fn neg_req(self) -> bool {
        true
    }

    open spec fn neg_spec(self) -> OInterval {
        self.negated()
    }
}

impl Neg for OInterval {
    type Output = OInterval;

    fn neg(self) -> (negated: OInterval)
        ensures
            negated == self.negated(),
    {
        proof {
            use_type_invariant(self);
        }
        OInterval { deg: self.deg.neg(), qual: self.qual.neg() }
    }
}

impl Interval {
    /// The interval from C of octave 0 to the negation of the pitch that
    /// lies this interval above it.
    pub open spec fn negated(self) -> Interval {
        Interval::of_pitch(Pitch::of_interval(self).negated())
    }
}

impl vstd::std_specs::ops::NegSpecImpl for Interval {
    open spec fn obeys_neg_spec() -> bool {
        true
    }

    open spec fn neg_req(self) -> bool {
        true
    }

    open spec fn neg_spec(self) -> Interval {
        self.negated()
    }
}

impl Neg for Interval {
    type Output = Interval;

    fn neg(self) -> (negated: Interval)
        ensures
            negated == self.negated(),
    {
        Interval::from(Pitch::from(self).neg())
    }
}

} // verus!
