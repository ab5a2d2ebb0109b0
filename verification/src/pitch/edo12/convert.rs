//! Conversions between pitches and intervals: a pitch is the interval from
//! C of octave 0 up to it.
//!
//! Like the operators, these conversions never fail. A tone that does not
//! fit its eight bits wraps around; the result is exact wherever the pitch
//! can be held.

use crate::num::wrap_to_i8;
use crate::pitch::edo12::base::{OPitch, OStep, Pitch, Step};
use crate::pitch::edo12::interval::{Interval, IntervalDeg, OInterval, OIntervalDeg};
use crate::pitch::edo12::traits::Qual;
use vstd::prelude::*;

verus! {

impl OInterval {
    /// The interval from C up to the pitch.
    pub open spec fn of_opitch(pitch: OPitch) -> OInterval {
        OInterval::of_model(pitch@.interval())
    }

    /// The interval from C up to the pitch, once that is reduced to
    /// octave 0.
    pub open spec fn of_pitch(pitch: Pitch) -> OInterval {
        OInterval::of_opitch(OPitch::of_pitch(pitch))
    }
}

impl Interval {
    /// The interval from C of octave 0 to the pitch.
    pub open spec fn of_pitch(pitch: Pitch) -> Interval {
        Interval::of_parts(IntervalDeg(pitch.step.0), pitch.qual_spec())
    }

    /// The interval from C up to the pitch.
    pub open spec fn of_opitch(pitch: OPitch) -> Interval {
        Interval::of_pitch(Pitch::of_opitch(pitch))
    }
}

impl OPitch {
    /// The pitch that lies the interval above C.
    pub open spec fn of_ointerval(interval: OInterval) -> OPitch {
        OPitch::of_model(interval@.pitch().wrap_tone())
    }

    /// The pitch that lies the interval above C, reduced to octave 0.
    pub open spec fn of_interval(interval: Interval) -> OPitch {
        OPitch::of_pitch(Pitch::of_interval(interval))
    }
}

impl Pitch {
    /// The pitch that lies the interval above C of octave 0.
    pub open spec fn of_interval(interval: Interval) -> Pitch {
        Pitch::of_model(interval@.pitch().wrap_tone())
    }

    /// The pitch that lies the interval above C of octave 0.
    pub open spec fn of_ointerval(interval: OInterval) -> Pitch {
        Pitch::of_opitch(OPitch::of_ointerval(interval))
    }
}

impl vstd::std_specs::convert::FromSpecImpl<OPitch> for OInterval {
    open spec fn obeys_from_spec() -> bool {
        true
    }

    open spec fn from_spec(pitch: OPitch) -> OInterval {
        OInterval::of_opitch(pitch)
    }
}

impl From<OPitch> for OInterval {
    fn from(pitch: OPitch) -> (r: OInterval)
        ensures
            r == OInterval::of_opitch(pitch),
    {
        let qual = pitch.qual();
        let deg = OIntervalDeg::from(pitch.step);
        OInterval { deg, qual }
    }
}

impl vstd::std_specs::convert::FromSpecImpl<Pitch> for OInterval {
    open spec fn obeys_from_spec() -> bool {
        true
    }

    open spec fn from_spec(pitch: Pitch) -> OInterval {
        OInterval::of_pitch(pitch)
    }
}

impl From<Pitch> for OInterval {
    fn from(pitch: Pitch) -> (r: OInterval)
        ensures
            r == OInterval::of_pitch(pitch),
    {
        OInterval::from(OPitch::from(pitch))
    }
}

impl vstd::std_specs::convert::FromSpecImpl<Pitch> for Interval {
    open spec fn obeys_from_spec() -> bool {
        true
    }

    open spec fn from_spec(pitch: Pitch) -> Interval {
        Interval::of_pitch(pitch)
    }
}

impl From<Pitch> for Interval {
    fn from(pitch: Pitch) -> (r: Interval)
        ensures
            r == Interval::of_pitch(pitch),
    {
        let qual = pitch.qual();
        let deg = IntervalDeg::from(pitch.step);
        Interval { deg, qual }
    }
}

impl vstd::std_specs::convert::FromSpecImpl<OPitch> for Interval {
    open spec fn obeys_from_spec() -> bool {
        true
    }

    open spec fn from_spec(pitch: OPitch) -> Interval {
        Interval::of_opitch(pitch)
    }
}

impl From<OPitch> for Interval {
    fn from(pitch: OPitch) -> (r: Interval)
        ensures
            r == Interval::of_opitch(pitch),
    {
        Interval::from(Pitch::from(pitch))
    }
}

impl vstd::std_specs::convert::FromSpecImpl<OInterval> for OPitch {
    open spec fn obeys_from_spec() -> bool {
        true
    }

    open spec fn from_spec(interval: OInterval) -> OPitch {
        OPitch::of_ointerval(interval)
    }
}

impl From<OInterval> for OPitch {
    fn from(interval: OInterval) -> (r: OPitch)
        ensures
            r == OPitch::of_ointerval(interval),
    {
        proof {
            use_type_invariant(interval);
        }
        let step = OStep::from(interval.deg);
        let offset = interval.qual.semitone_offset(step.is_perfect()).unwrap();
        let tone: i32 = step.diatonic_tone() as i32 + offset as i32;
        OPitch { step, tone: wrap_to_i8(tone) }
    }
}

impl vstd::std_specs::convert::FromSpecImpl<OInterval> for Pitch {
    open spec fn obeys_from_spec() -> bool {
        true
    }

    open spec fn from_spec(interval: OInterval) -> Pitch {
        Pitch::of_ointerval(interval)
    }
}

impl From<OInterval> for Pitch {
    fn from(interval: OInterval) -> (r: Pitch)
        ensures
            r == Pitch::of_ointerval(interval),
    {
        Pitch::from(OPitch::from(interval))
    }
}

impl vstd::std_specs::convert::FromSpecImpl<Interval> for Pitch {
    open spec fn obeys_from_spec() -> bool {
        true
    }

    open spec fn from_spec(interval: Interval) -> Pitch {
        Pitch::of_interval(interval)
    }
}

impl From<Interval> for Pitch {
    fn from(interval: Interval) -> (r: Pitch)
        ensures
            r == Pitch::of_interval(interval),
    {
        proof {
            use_type_invariant(interval);
        }
        let step = Step::from(interval.deg);
        let (ostep, octave) = step.into_ostep_and_octave();
        let offset = interval.qual.semitone_offset(ostep.is_perfect()).unwrap();
        let tone: i32 = ostep.diatonic_tone() as i32 + 12 * (octave as i32) + offset as i32;
        Pitch { step, tone: wrap_to_i8(tone) }
    }
}

impl vstd::std_specs::convert::FromSpecImpl<Interval> for OPitch {
    open spec fn obeys_from_spec() -> bool {
        true
    }

    open spec fn from_spec(interval: Interval) -> OPitch {
        OPitch::of_interval(interval)
    }
}

impl From<Interval> for OPitch {
    fn from(interval: Interval) -> (r: OPitch)
        ensures
            r == OPitch::of_interval(interval),
    {
        OPitch::from(Pitch::from(interval))
    }
}

} // verus!
