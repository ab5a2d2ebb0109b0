//! The traits that steps, pitches and intervals share.

use crate::pitch::edo12::base::Acci;
use crate::pitch::edo12::interval::IntervalQual;
use vstd::prelude::*;

verus! {

/// A place on the circle of fifths.
pub trait Co5Order: Sized {
    type Output;

    /// Whether `Output` can hold the place.
    spec fn has_co5_order(&self) -> bool;

    /// The number of perfect fifths from C, upwards.
    spec fn co5_order_spec(&self) -> int;

    fn co5_order(self) -> (order: Self::Output)
        requires
            self.has_co5_order(),
    ;
}

/// Construction from a place on the circle of fifths.
pub trait FromCo5Order<T>: Sized {
    spec fn from_co5_order_spec(order: T) -> Self;

    fn from_co5_order(order: T) -> (r: Self)
        ensures
            r == Self::from_co5_order_spec(order),
    ;
}

/// What can be read off a pitch, reduced or absolute.
pub trait PitchNotation {
    type Step;

    type OStep;

    type Acci;

    type OTone;

    type Tone;

    type Octave;

    /// Whether the tone of the pitch, once reduced to octave 0, fits the
    /// type that has to hold it.
    spec fn has_otone(&self) -> bool;

    /// Whether the accidental of the pitch fits the type that has to hold
    /// it.
    spec fn has_acci(&self) -> bool;

    /// Whether the natural tone of the step of the pitch fits the type
    /// that has to hold it.
    spec fn has_natural_tone(&self) -> bool;

    fn step(&self) -> Self::Step;

    fn tone(&self) -> Self::Tone;

    fn ostep(&self) -> Self::OStep;

    fn octave(&self) -> Self::Octave;

    fn octave_by_tone(&self) -> Self::Octave;

    fn otone(&self) -> Self::OTone
        requires
            self.has_otone(),
    ;

    fn acci(&self) -> Self::Acci
        requires
            self.has_natural_tone(),
            self.has_acci(),
    ;

    fn is_diatonic(&self) -> bool
        requires
            self.has_natural_tone(),
    ;

    fn is_enharmonic(&self, other: &Self) -> bool;
}

/// The quality of an interval, or of the interval from C to a pitch.
pub trait Qual {
    spec fn qual_spec(&self) -> IntervalQual;

    fn qual(&self) -> (q: IntervalQual)
        ensures
            q == self.qual_spec(),
    ;
}

/// The quality of an interval measured upwards, whichever way it points.
pub trait AbsQual {
    spec fn abs_qual_spec(&self) -> IntervalQual;

    fn abs_qual(&self) -> (q: IntervalQual)
        ensures
            q == self.abs_qual_spec(),
    ;
}

/// The accidental that gives a step, or a degree, a wanted quality.
pub trait AcciByQual {
    spec fn acci_by_qual_spec(&self, qual: IntervalQual) -> Option<Acci>;

    fn acci_by_qual(&self, qual: IntervalQual) -> (acci: Option<Acci>)
        ensures
            acci == self.acci_by_qual_spec(qual),
    ;
}

} // verus!
