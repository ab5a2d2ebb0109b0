use crate::num::{fits_i8, mod_add_u8, wrap_i8, wrap_to_i8};
use crate::pitch::edo12::base::{Acci, OPitch, OStep, Pitch, Step};
use crate::pitch::edo12::interval::{IntervalDeg, OInterval, OIntervalDeg};
use std::ops::Add;
use vstd::prelude::*;

verus! {

impl OStep {
    /// The sum, counted round the cycle of seven.
    pub open spec fn plus(self, rhs: OStep) -> OStep {
        OStep::of_int(self@ + rhs@)
    }
}

impl vstd::std_specs::ops::AddSpecImpl for OStep {
    open spec fn obeys_add_spec() -> bool {
        true
    }

    open spec fn add_req(self, rhs: OStep) -> bool {
        true
    }

    open spec fn add_spec(self, rhs: OStep) -> OStep {
        self.plus(rhs)
    }
}

impl Add for OStep {
    type Output = OStep;

    fn add(self, rhs: OStep) -> (sum: OStep)
        ensures
            sum == self.plus(rhs),
    {
        OStep::from_index(mod_add_u8(self.index(), rhs.index(), 7)).unwrap()
    }
}

impl Step {
    /// The sum; where it does not fit, it wraps around.
    pub open spec fn plus(self, rhs: Step) -> Step {
        Step(wrap_i8(self@ + rhs@) as i8)
    }
}

impl vstd::std_specs::ops::AddSpecImpl for Step {
    open spec fn obeys_add_spec() -> bool {
        true
    }

    open spec fn add_req(self, rhs: Step) -> bool {
        true
    }

    open spec fn add_spec(self, rhs: Step) -> Step {
        self.plus(rhs)
    }
}

impl Add for Step {
    type Output = Step;

    fn add(self, rhs: Step) -> (sum: Step)
        ensures
            sum == self.plus(rhs),
    {
        Step(wrap_to_i8(self.0 as i32 + rhs.0 as i32))
    }
}

impl Acci {
    /// The sum; where it does not fit, it wraps around.
    pub open spec fn plus(self, rhs: Acci) -> Acci {
        Acci(wrap_i8(self@ + rhs@) as i8)
    }
}

impl vstd::std_specs::ops::AddSpecImpl for Acci {
    open spec fn obeys_add_spec() -> bool {
        true
    }

    open spec fn add_req(self, rhs: Acci) -> bool {
        true
    }

    open spec fn add_spec(self, rhs: Acci) -> Acci {
        self.plus(rhs)
    }
}

impl Add for Acci {
    type Output = Acci;

    fn add(self, rhs: Acci) -> (sum: Acci)
        ensures
            sum == self.plus(rhs),
    {
        Acci(wrap_to_i8(self.0 as i32 + rhs.0 as i32))
    }
}

impl OPitch {
    /// Steps and tones are added independently; a step sum of 7 or more
    /// gives up one octave, and the tone twelve semitones with it.
    pub open spec fn plus(self, rhs: OPitch) -> OPitch {
        OPitch::of_model(self@.plus(rhs@).reduce().wrap_tone())
    }
}

impl vstd::std_specs::ops::AddSpecImpl for OPitch {
    open spec fn obeys_add_spec() -> bool {
        true
    }

    open spec fn add_req(self, rhs: OPitch) -> bool {
        true
    }

    open spec fn add_spec(self, rhs: OPitch) -> OPitch {
        self.plus(rhs)
    }
}

impl Add for OPitch {
    type Output = OPitch;

    fn add(self, rhs: OPitch) -> (sum: OPitch)
        ensures
            sum == self.plus(rhs),
    {
        let mut step: u8 = self.step.index() + rhs.step.index();
        let mut tone: i32 = self.tone as i32 + rhs.tone as i32;
        if step >= 7 {
            tone -= 12;
            step -= 7;
        }
        OPitch { step: OStep::from_index(step).unwrap(), tone: wrap_to_i8(tone) }
    }
}

impl OPitch {
    /// What `checked_add` returns: the sum, unless adding the tones, or
    /// then taking twelve from them for the octave given up, leaves the
    /// range of an `i8`.
    pub open spec fn checked_add_spec(self, rhs: OPitch) -> Option<OPitch> {
        let sum = self@.plus(rhs@);
        if fits_i8(sum.tone) && fits_i8(sum.reduce().tone) {
            Some(OPitch::of_model(sum.reduce()))
        } else {
            None
        }
    }

    /// The sum of two pitches, or `None` where the tone overflows.
    pub fn checked_add(self, rhs: OPitch) -> (sum: Option<OPitch>)
        ensures
            sum == self.checked_add_spec(rhs),
            sum is Some ==> sum->0 == self.plus(rhs),
    {
        let mut step: u8 = self.step.index() + rhs.step.index();
        let mut tone: i8 = match self.tone.checked_add(rhs.tone) {
            Some(tone) => tone,
            None => { return None; },
        };
        if step >= 7 {
            tone = match tone.checked_sub(12) {
                Some(tone) => tone,
                None => { return None; },
            };
            step -= 7;
        }
        Some(OPitch { step: OStep::from_index(step).unwrap(), tone })
    }
}

impl Pitch {
    /// Steps and tones are added independently.
    pub open spec fn plus(self, rhs: Pitch) -> Pitch {
        Pitch::of_model(self@.plus(rhs@).wrap())
    }
}

impl vstd::std_specs::ops::AddSpecImpl for Pitch {
    open spec fn obeys_add_spec() -> bool {
        true
    }

    open spec fn add_req(self, rhs: Pitch) -> bool {
        true
    }

    open spec fn add_spec(self, rhs: Pitch) -> Pitch {
        self.plus(rhs)
    }
}

impl Add for Pitch {
    type Output = Pitch;

    fn add(self, rhs: Pitch) -> (sum: Pitch)
        ensures
            sum == self.plus(rhs),
    {
        Pitch {
            step: Step(wrap_to_i8(self.step.0 as i32 + rhs.step.0 as i32)),
            tone: wrap_to_i8(self.tone as i32 + rhs.tone as i32),
        }
    }
}

impl OIntervalDeg {
    /// The sum, counted round the cycle of seven.
    pub open spec fn plus(self, rhs: OIntervalDeg) -> OIntervalDeg {
        OIntervalDeg::of_int(self@ + rhs@)
    }
}

impl vstd::std_specs::ops::AddSpecImpl for OIntervalDeg {
    open spec fn obeys_add_spec() -> bool {
        true
    }

    open spec fn add_req(self, rhs: OIntervalDeg) -> bool {
        true
    }

    open spec fn add_spec(self, rhs: OIntervalDeg) -> OIntervalDeg {
        self.plus(rhs)
    }
}

impl Add for OIntervalDeg {
    type Output = OIntervalDeg;

    fn add(self, rhs: OIntervalDeg) -> (sum: OIntervalDeg)
        ensures
            sum == self.plus(rhs),
    {
        OIntervalDeg::from_index(mod_add_u8(self.index(), rhs.index(), 7)).unwrap()
    }
}

impl IntervalDeg {
    /// The sum; where it does not fit, it wraps around.
    pub open spec fn plus(self, rhs: IntervalDeg) -> IntervalDeg {
        IntervalDeg(wrap_i8(self@ + rhs@) as i8)
    }
}

impl vstd::std_specs::ops::AddSpecImpl for IntervalDeg {
    open spec fn obeys_add_spec() -> bool {
        true
    }

    open spec fn add_req(self, rhs: IntervalDeg) -> bool {
        true
    }

    open spec fn add_spec(self, rhs: IntervalDeg) -> IntervalDeg {
        self.plus(rhs)
    }
}

impl Add for IntervalDeg {
    type Output = IntervalDeg;

    fn add(self, rhs: IntervalDeg) -> (sum: IntervalDeg)
        ensures
            sum == self.plus(rhs),
    {
        IntervalDeg(wrap_to_i8(self.0 as i32 + rhs.0 as i32))
    }
}

impl OInterval {
    /// The interval from C up to the sum of the pitches that lie the two
    /// intervals above C.
    pub open spec fn plus(self, rhs: OInterval) -> OInterval {
        OInterval::of_opitch(OPitch::of_ointerval(self).plus(OPitch::of_ointerval(rhs)))
    }
}

impl vstd::std_specs::ops::AddSpecImpl for OInterval {
    open spec fn obeys_add_spec() -> bool {
        true
    }

    open spec fn add_req(self, rhs: OInterval) -> bool {
        true
    }

    open spec fn add_spec(self, rhs: OInterval) -> OInterval {
        self.plus(rhs)
    }
}

impl Add for OInterval {
    type Output = OInterval;

    fn add(self, rhs: OInterval) -> (sum: OInterval)
        ensures
            sum == self.plus(rhs),
    {
        OInterval::from(OPitch::from(self) + OPitch::from(rhs))
    }
}

impl OPitch {
    /// The sum of the pitches, added one after the other from the left,
    /// and C where there are none.
    pub open spec fn sum_of(pitches: Seq<OPitch>) -> OPitch
        decreases pitches.len(),
    {
        if pitches.len() == 0 {
            OPitch { step: OStep::C, tone: 0 }
        } else {
            OPitch::sum_of(pitches.drop_last()).plus(pitches.last())
        }
    }

    /// The sum of the pitches.
    pub fn sum(pitches: &[OPitch]) -> (total: OPitch)
        ensures
            total == OPitch::sum_of(pitches@),
    {
        let mut total = OPitch { step: OStep::C, tone: 0 };
        let n = pitches.len();
        let mut i: usize = 0;
        while i < n
            invariant
                i <= n,
                n == pitches.len(),
                total == OPitch::sum_of(pitches@.subrange(0, i as int)),
            decreases n - i,
        {
            proof {
                assert(pitches@.subrange(0, i + 1).drop_last() == pitches@.subrange(0, i as int));
            }
            total = total + pitches[i];
            i += 1;
        }
        proof {
            assert(pitches@.subrange(0, n as int) == pitches@);
        }
        total
    }

    /// The sum of the pitches that lie the intervals above C.
    pub open spec fn sum_of_intervals(intervals: Seq<OInterval>) -> OPitch
        decreases intervals.len(),
    {
        if intervals.len() == 0 {
            OPitch { step: OStep::C, tone: 0 }
        } else {
            OPitch::sum_of_intervals(intervals.drop_last()).plus(
                OPitch::of_ointerval(intervals.last()),
            )
        }
    }
}

impl OInterval {
    /// The sum of the intervals: the interval from C up to the sum of the
    /// pitches that lie the intervals above C.
    pub open spec fn sum_of(intervals: Seq<OInterval>) -> OInterval {
        OInterval::of_opitch(OPitch::sum_of_intervals(intervals))
    }

    /// The sum of the intervals.
    pub fn sum(intervals: &[OInterval]) -> (total: OInterval)
        ensures
            total == OInterval::sum_of(intervals@),
    {
        let mut total = OPitch { step: OStep::C, tone: 0 };
        let n = intervals.len();
        let mut i: usize = 0;
        while i < n
            invariant
                i <= n,
                n == intervals.len(),
                total == OPitch::sum_of_intervals(intervals@.subrange(0, i as int)),
            decreases n - i,
        {
            proof {
                assert(intervals@.subrange(0, i + 1).drop_last() == intervals@.subrange(
                    0,
                    i as int,
                ));
            }
            total = total + OPitch::from(intervals[i]);
            i += 1;
        }
        proof {
            assert(intervals@.subrange(0, n as int) == intervals@);
        }
        OInterval::from(total)
    }
}

} // verus!
