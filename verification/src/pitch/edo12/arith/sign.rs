use crate::num::{compare, sign_i8, sign_of};
use crate::pitch::edo12::base::Pitch;
use crate::pitch::edo12::interval::{Interval, IntervalQual};
use std::cmp::Ordering;
use vstd::prelude::*;

verus! {

impl Pitch {
    /// The direction of the pitch from C of octave 0: that of its step,
    /// or, where the step is 0, that of its tone.
    pub open spec fn sign_spec(self) -> Ordering {
        if self.step.0 != 0 {
            sign_of(self.step.0)
        } else {
            sign_of(self.tone)
        }
    }

    /// Whether the pitch lies above (`Greater`), below (`Less`) or on
    /// (`Equal`) C of octave 0.
    pub fn sign(&self) -> (sign: Ordering)
        ensures
            sign == self.sign_spec(),
    {
        match sign_i8(self.step.0) {
            Ordering::Equal => sign_i8(self.tone),
            sign => sign,
        }
    }
}

impl Interval {
    /// The direction of the interval: that of its degree, or, on the
    /// unison, up for an augmented and down for a diminished one.
    pub open spec fn sign_spec(self) -> Ordering {
        if self@.deg != 0 {
            compare(self@.deg, 0)
        } else {
            match self@.qual.compare_with(IntervalQual::Perfect) {
                Some(order) => order,
                None => Ordering::Equal,
            }
        }
    }

    /// Whether the interval points up (`Greater`), down (`Less`) or
    /// nowhere (`Equal`).
    pub fn sign(&self) -> (sign: Ordering)
        ensures
            sign == self.sign_spec(),
            self@.deg == 0 ==> Some(sign) == self@.qual.compare_with(IntervalQual::Perfect),
    {
        proof {
            use_type_invariant(self);
        }
        match sign_i8(self.deg.0) {
            Ordering::Equal => self.qual.partial_cmp(&IntervalQual::Perfect).unwrap(),
            sign => sign,
        }
    }
}

} // verus!
