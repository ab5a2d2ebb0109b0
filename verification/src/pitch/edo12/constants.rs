//! The named values: the usual accidentals, the seven natural pitches, and
//! the zero of each type.

use crate::pitch::edo12::base::{Acci, OPitch, OStep, Pitch, Step};
use crate::pitch::edo12::interval::{
    Interval, IntervalDeg, IntervalQual, OInterval, OIntervalDeg,
};
use vstd::prelude::*;

verus! {

impl Acci {
    pub fn triple_flat() -> (acci: Acci)
        ensures
            acci@ == -3,
    {
        Acci(-3)
    }

    pub fn double_flat() -> (acci: Acci)
        ensures
            acci@ == -2,
    {
        Acci(-2)
    }

    pub fn flat() -> (acci: Acci)
        ensures
            acci@ == -1,
    {
        Acci(-1)
    }

    pub fn natural() -> (acci: Acci)
        ensures
            acci@ == 0,
    {
        Acci(0)
    }

    pub fn sharp() -> (acci: Acci)
        ensures
            acci@ == 1,
    {
        Acci(1)
    }

    pub fn double_sharp() -> (acci: Acci)
        ensures
            acci@ == 2,
    {
        Acci(2)
    }

    pub fn triple_sharp() -> (acci: Acci)
        ensures
            acci@ == 3,
    {
        Acci(3)
    }

    /// The natural.
    pub fn zero() -> (acci: Acci)
        ensures
            acci@ == 0,
    {
        Acci(0)
    }
}

impl OStep {
    /// C, which added to a step leaves it unchanged.
    pub fn zero() -> (step: OStep)
        ensures
            step == OStep::C,
    {
        OStep::C
    }
}

impl Step {
    /// C of octave 0.
    pub fn zero() -> (step: Step)
        ensures
            step@ == 0,
    {
        Step(0)
    }
}

impl OPitch {
    pub fn c() -> (pitch: OPitch)
        ensures
            pitch == (OPitch { step: OStep::C, tone: 0 }),
    {
        OPitch { step: OStep::C, tone: 0 }
    }

    pub fn d() -> (pitch: OPitch)
        ensures
            pitch == (OPitch { step: OStep::D, tone: 2 }),
    {
        OPitch { step: OStep::D, tone: 2 }
    }

    pub fn e() -> (pitch: OPitch)
        ensures
            pitch == (OPitch { step: OStep::E, tone: 4 }),
    {
        OPitch { step: OStep::E, tone: 4 }
    }

    pub fn f() -> (pitch: OPitch)
        ensures
            pitch == (OPitch { step: OStep::F, tone: 5 }),
    {
        OPitch { step: OStep::F, tone: 5 }
    }

    pub fn g() -> (pitch: OPitch)
        ensures
            pitch == (OPitch { step: OStep::G, tone: 7 }),
    {
        OPitch { step: OStep::G, tone: 7 }
    }

    pub fn a() -> (pitch: OPitch)
        ensures
            pitch == (OPitch { step: OStep::A, tone: 9 }),
    {
        OPitch { step: OStep::A, tone: 9 }
    }

    pub fn b() -> (pitch: OPitch)
        ensures
            pitch == (OPitch { step: OStep::B, tone: 11 }),
    {
        OPitch { step: OStep::B, tone: 11 }
    }

    /// C, which added to a pitch leaves it unchanged.
    pub fn zero() -> (pitch: OPitch)
        ensures
            pitch == (OPitch { step: OStep::C, tone: 0 }),
    {
        OPitch { step: OStep::C, tone: 0 }
    }
}

impl Pitch {
    /// C of octave 0.
    pub fn zero() -> (pitch: Pitch)
        ensures
            pitch == (Pitch { step: Step(0), tone: 0 }),
    {
        Pitch { step: Step(0), tone: 0 }
    }
}

impl OIntervalDeg {
    /// The unison.
    pub fn zero() -> (deg: OIntervalDeg)
        ensures
            deg == OIntervalDeg::Unison,
    {
        OIntervalDeg::Unison
    }
}

impl IntervalDeg {
    /// The unison.
    pub fn zero() -> (deg: IntervalDeg)
        ensures
            deg@ == 0,
    {
        IntervalDeg(0)
    }
}

impl OInterval {
    /// The perfect unison.
    pub fn zero() -> (interval: OInterval)
        ensures
            interval == OInterval::of_parts(OIntervalDeg::Unison, IntervalQual::Perfect),
    {
        OInterval { deg: OIntervalDeg::Unison, qual: IntervalQual::Perfect }
    }
}

impl Interval {
    /// The perfect unison.
    pub fn zero() -> (interval: Interval)
        ensures
            interval == Interval::of_parts(IntervalDeg(0), IntervalQual::Perfect),
    {
        Interval { deg: IntervalDeg(0), qual: IntervalQual::Perfect }
    }
}

} // verus!
