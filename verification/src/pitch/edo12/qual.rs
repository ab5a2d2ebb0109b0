//! The quality of pitches and intervals, and the accidental that gives a
//! step a wanted quality.

use crate::num::fits_i8;
use crate::pitch::edo12::base::{Acci, OPitch, OStep, Pitch, Step};
use crate::pitch::edo12::interval::{Interval, IntervalDeg, IntervalQual, OInterval, OIntervalDeg};
use crate::pitch::edo12::traits::{AbsQual, AcciByQual, Qual};
use std::cmp::Ordering;
use std::ops::Neg;
use crate::traits::FromMod;
use vstd::prelude::*;

verus! {

impl OStep {
    /// Whether the step is C, F or G.
    pub fn is_perfect(self) -> (perfect: bool)
        ensures
            perfect == self.is_perfect_class(),
    {
        match self {
            OStep::C | OStep::F | OStep::G => true,
            _ => false,
        }
    }
}

impl IntervalQual {
    /// How many semitones above its natural tone a step of the given class
    /// lies when it has this quality; `None` where the quality cannot stand
    /// on that class.
    pub fn semitone_offset(self, perfect: bool) -> (offset: Option<i16>)
        ensures
            offset is Some <==> self.offset(perfect) is Some,
            offset is Some ==> offset->0 == self.offset(perfect)->0,
    {
        match self {
            IntervalQual::Perfect => if perfect {
                Some(0)
            } else {
                None
            },
            IntervalQual::Major => if perfect {
                None
            } else {
                Some(0)
            },
            IntervalQual::Minor => if perfect {
                None
            } else {
                Some(-1)
            },
            IntervalQual::Augmented(n) => Some(n as i16),
            IntervalQual::Diminished(n) => if perfect {
                Some(-(n as i16))
            } else {
                Some(-(n as i16) - 1)
            },
        }
    }
}

impl Qual for OInterval {
    open spec fn qual_spec(&self) -> IntervalQual {
        self@.qual
    }

    fn qual(&self) -> (q: IntervalQual) {
        self.qual
    }
}

impl Qual for Interval {
    open spec fn qual_spec(&self) -> IntervalQual {
        self@.qual
    }

    fn qual(&self) -> (q: IntervalQual) {
        self.qual
    }
}

impl Qual for OPitch {
    /// The quality of the interval from C up to the pitch: how far the
    /// tone lies from the natural tone of the step, named as the class of
    /// the step asks.
    open spec fn qual_spec(&self) -> IntervalQual {
        IntervalQual::of_offset(self.step.is_perfect_class(), self@.acci())
    }

    fn qual(&self) -> (q: IntervalQual) {
        let diff: i16 = self.tone as i16 - self.step.diatonic_tone() as i16;
        if self.step.is_perfect() {
            if diff == 0 {
                IntervalQual::Perfect
            } else if diff > 0 {
                IntervalQual::Augmented(diff as u8)
            } else {
                IntervalQual::Diminished((-diff) as u8)
            }
        } else {
            if diff == 0 {
                IntervalQual::Major
            } else if diff == -1 {
                IntervalQual::Minor
            } else if diff > 0 {
                IntervalQual::Augmented(diff as u8)
            } else {
                IntervalQual::Diminished((-diff - 1) as u8)
            }
        }
    }
}

impl Qual for Pitch {
    /// The quality of the pitch once reduced to octave 0.
    open spec fn qual_spec(&self) -> IntervalQual {
        OPitch::of_pitch(*self).qual_spec()
    }

    fn qual(&self) -> (q: IntervalQual) {
        OPitch::from_pitch(*self).qual()
    }
}

impl AbsQual for Pitch {
    /// The quality of the interval between C of octave 0 and the pitch,
    /// measured upwards: that of the pitch where it lies above, the
    /// negated one where it lies below, and perfect where it is C itself.
    open spec fn abs_qual_spec(&self) -> IntervalQual {
        match self.sign_spec() {
            Ordering::Less => self.qual_spec().negated(),
            Ordering::Equal => IntervalQual::Perfect,
            Ordering::Greater => self.qual_spec(),
        }
    }

    fn abs_qual(&self) -> (q: IntervalQual) {
        match self.sign() {
            Ordering::Less => self.qual().neg(),
            Ordering::Equal => IntervalQual::Perfect,
            Ordering::Greater => self.qual(),
        }
    }
}

impl AbsQual for Interval {
    /// The quality of the interval measured upwards: its own where it
    /// points up or nowhere, the negated one where it points down.
    open spec fn abs_qual_spec(&self) -> IntervalQual {
        match self.sign_spec() {
            Ordering::Less => self.qual_spec().negated(),
            _ => self.qual_spec(),
        }
    }

    fn abs_qual(&self) -> (q: IntervalQual) {
        match self.sign() {
            Ordering::Less => self.qual().neg(),
            _ => self.qual(),
        }
    }
}

impl AcciByQual for OStep {
    /// The accidental that gives the step the quality: `None` where the
    /// quality cannot stand on the step, and where no `Acci` can hold the
    /// accidental.
    open spec fn acci_by_qual_spec(&self, qual: IntervalQual) -> Option<Acci> {
        match qual.offset(self.is_perfect_class()) {
            Some(offset) => if fits_i8(offset) {
                Some(Acci(offset as i8))
            } else {
                None
            },
            None => None,
        }
    }

    fn acci_by_qual(&self, qual: IntervalQual) -> (acci: Option<Acci>) {
        match qual.semitone_offset(self.is_perfect()) {
            Some(offset) => if offset < -128 || offset > 127 {
                None
            } else {
                Some(Acci(offset as i8))
            },
            None => None,
        }
    }
}

impl AcciByQual for Step {
    open spec fn acci_by_qual_spec(&self, qual: IntervalQual) -> Option<Acci> {
        OStep::of_int(self@).acci_by_qual_spec(qual)
    }

    fn acci_by_qual(&self, qual: IntervalQual) -> (acci: Option<Acci>) {
        OStep::from_number(self.0).acci_by_qual(qual)
    }
}

impl AcciByQual for OIntervalDeg {
    open spec fn acci_by_qual_spec(&self, qual: IntervalQual) -> Option<Acci> {
        self.step().acci_by_qual_spec(qual)
    }

    fn acci_by_qual(&self, qual: IntervalQual) -> (acci: Option<Acci>) {
        OStep::from_index(self.index()).unwrap().acci_by_qual(qual)
    }
}

impl AcciByQual for IntervalDeg {
    open spec fn acci_by_qual_spec(&self, qual: IntervalQual) -> Option<Acci> {
        OStep::of_int(self@).acci_by_qual_spec(qual)
    }

    fn acci_by_qual(&self, qual: IntervalQual) -> (acci: Option<Acci>) {
        Step(self.0).acci_by_qual(qual)
    }
}

} // verus!
