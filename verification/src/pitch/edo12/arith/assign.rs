use crate::pitch::edo12::base::{Acci, OPitch, Pitch, Step};
use crate::pitch::edo12::interval::{Interval, IntervalDeg, IntervalQual, OInterval};
use std::ops::{Add, Mul, Neg, Sub};
use vstd::prelude::*;

verus! {

impl Step {
    /// Adds `rhs` to the step in place.
    pub fn add_assign(&mut self, rhs: Step)
        ensures
            *final(self) == old(self).plus(rhs),
    {
        *self = (*self).add(rhs);
    }

    /// Subtracts `rhs` from the step in place.
    pub fn sub_assign(&mut self, rhs: Step)
        ensures
            *final(self) == old(self).minus(rhs),
    {
        *self = (*self).sub(rhs);
    }

    /// Multiplies the step by `rhs` in place.
    pub fn mul_assign(&mut self, rhs: i8)
        ensures
            *final(self) == old(self).times(rhs),
    {
        *self = (*self).mul(rhs);
    }

    /// Negates the step in place.
    pub fn neg_assign(&mut self)
        ensures
            *final(self) == old(self).negated(),
    {
        *self = (*self).neg();
    }
}

impl Acci {
    /// Adds `rhs` to the accidental in place.
    pub fn add_assign(&mut self, rhs: Acci)
        ensures
            *final(self) == old(self).plus(rhs),
    {
        *self = (*self).add(rhs);
    }

    /// Subtracts `rhs` from the accidental in place.
    pub fn sub_assign(&mut self, rhs: Acci)
        ensures
            *final(self) == old(self).minus(rhs),
    {
        *self = (*self).sub(rhs);
    }

    /// Multiplies the accidental by `rhs` in place.
    pub fn mul_assign(&mut self, rhs: i8)
        ensures
            *final(self) == old(self).times(rhs),
    {
        *self = (*self).mul(rhs);
    }

    /// Negates the accidental in place.
    pub fn neg_assign(&mut self)
        ensures
            *final(self) == old(self).negated(),
    {
        *self = (*self).neg();
    }
}

impl IntervalDeg {
    /// Adds `rhs` to the degree in place.
    pub fn add_assign(&mut self, rhs: IntervalDeg)
        ensures
            *final(self) == old(self).plus(rhs),
    {
        *self = (*self).add(rhs);
    }

    /// Subtracts `rhs` from the degree in place.
    pub fn sub_assign(&mut self, rhs: IntervalDeg)
        ensures
            *final(self) == old(self).minus(rhs),
    {
        *self = (*self).sub(rhs);
    }

    /// Negates the degree in place.
    pub fn neg_assign(&mut self)
        ensures
            *final(self) == old(self).negated(),
    {
        *self = (*self).neg();
    }
}

impl IntervalQual {
    /// Negates the quality in place.
    pub fn neg_assign(&mut self)
        ensures
            *final(self) == old(self).negated(),
    {
        *self = (*self).neg();
    }
}

impl OPitch {
    /// Adds `rhs` to the pitch in place.
    pub fn add_assign(&mut self, rhs: OPitch)
        ensures
            *final(self) == old(self).plus(rhs),
    {
        *self = (*self).add(rhs);
    }

    /// Subtracts `rhs` from the pitch in place.
    pub fn sub_assign(&mut self, rhs: OPitch)
        ensures
            *final(self) == old(self).minus(rhs),
    {
        *self = (*self).sub(rhs);
    }

    /// Multiplies the pitch by `rhs` in place.
    pub fn mul_assign(&mut self, rhs: i8)
        ensures
            *final(self) == old(self).times(rhs),
    {
        *self = (*self).mul(rhs);
    }

    /// Negates the pitch in place.
    pub fn neg_assign(&mut self)
        ensures
            *final(self) == old(self).negated(),
    {
        *self = (*self).neg();
    }
}

impl Pitch {
    /// Adds `rhs` to the pitch in place.
    pub fn add_assign(&mut self, rhs: Pitch)
        ensures
            *final(self) == old(self).plus(rhs),
    {
        *self = (*self).add(rhs);
    }

    /// Subtracts `rhs` from the pitch in place.
    pub fn sub_assign(&mut self, rhs: Pitch)
        ensures
            *final(self) == old(self).minus(rhs),
    {
        *self = (*self).sub(rhs);
    }

    /// Multiplies the pitch by `rhs` in place.
    pub fn mul_assign(&mut self, rhs: i8)
        ensures
            *final(self) == old(self).times(rhs),
    {
        *self = (*self).mul(rhs);
    }

    /// Negates the pitch in place.
    pub fn neg_assign(&mut self)
        ensures
            *final(self) == old(self).negated(),
    {
        *self = (*self).neg();
    }

    /// Replaces the pitch by the one measured upwards.
    pub fn abs_assign(&mut self)
        ensures
            *final(self) == old(self).abs_spec(),
    {
        *self = (*self).abs();
    }
}

impl OInterval {
    /// Adds `rhs` to the interval in place.
    pub fn add_assign(&mut self, rhs: OInterval)
        ensures
            *final(self) == old(self).plus(rhs),
    {
        *self = (*self).add(rhs);
    }

    /// Subtracts `rhs` from the interval in place.
    pub fn sub_assign(&mut self, rhs: OInterval)
        ensures
            *final(self) == old(self).minus(rhs),
    {
        *self = (*self).sub(rhs);
    }

    /// Negates the interval in place.
    pub fn neg_assign(&mut self)
        ensures
            *final(self) == old(self).negated(),
    {
        *self = (*self).neg();
    }
}

impl Interval {
    /// Negates the interval in place.
    pub fn neg_assign(&mut self)
        ensures
            *final(self) == old(self).negated(),
    {
        *self = (*self).neg();
    }
}

} // verus!
