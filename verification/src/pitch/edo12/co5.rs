//! The circle of fifths: every reduced pitch has a place on it, counted in
//! perfect fifths from C, and every place holds one pitch.

use crate::num::{div_mod_i16, fits_i8, mod_mul_u8, mod_op_i8};
use crate::pitch::edo12::base::{OPitch, OStep, PitchModel};
use crate::pitch::edo12::traits::{Co5Order, FromCo5Order};
use vstd::prelude::*;

verus! {

impl OStep {
    /// The place of the unaltered step on the circle of fifths: F lies one
    /// fifth below C, and G, D, A, E, B lie one to five fifths above it.
    pub open spec fn co5_place(self) -> int {
        match self {
            OStep::C => 0,
            OStep::D => 2,
            OStep::E => 4,
            OStep::F => -1,
            OStep::G => 1,
            OStep::A => 3,
            OStep::B => 5,
        }
    }

    /// The step at place `order` of the circle of fifths: a fifth spans
    /// four steps, so the step's number is four times the place, modulo 7.
    pub open spec fn at_co5_place(order: int) -> OStep {
        OStep::of_int((order % 7) * 4)
    }

    /// The place of the unaltered step on the circle of fifths.
    pub fn co5_order(self) -> (order: i8)
        ensures
            order == self.co5_place(),
    {
        match self {
            OStep::C => 0,
            OStep::D => 2,
            OStep::E => 4,
            OStep::F => -1,
            OStep::G => 1,
            OStep::A => 3,
            OStep::B => 5,
        }
    }

    /// The step at a place of the circle of fifths.
    pub fn from_co5_order(order: i8) -> (step: OStep)
        ensures
            step == OStep::at_co5_place(order as int),
    {
        let place: u8 = mod_op_i8(order, 7) as u8;
        OStep::from_index(mod_mul_u8(place, 4, 7)).unwrap()
    }
}

impl PitchModel {
    /// The place of a reduced pitch on the circle of fifths: that of its
    /// step, and seven fifths more for each semitone of its accidental.
    pub open spec fn co5_place(self) -> int {
        OStep::of_int(self.step).co5_place() + 7 * self.acci()
    }

    /// The reduced pitch at place `order` of the circle of fifths.
    pub open spec fn at_co5_place(order: int) -> PitchModel {
        let step = OStep::at_co5_place(order);
        PitchModel { step: step@, tone: step.natural_tone() + (order + 1) / 7 }
    }
}

impl OPitch {
    /// The pitch at place `order` of the circle of fifths.
    pub fn from_co5_order(order: i8) -> (pitch: OPitch)
        ensures
            pitch@ == PitchModel::at_co5_place(order as int),
    {
        let step = OStep::from_co5_order(order);
        let (sharps, _) = div_mod_i16(order as i16 + 1, 7);
        let tone: i16 = step.diatonic_tone() as i16 + sharps;
        OPitch { step, tone: tone as i8 }
    }

    /// The place of the pitch on the circle of fifths.
    pub fn co5_order(self) -> (order: i8)
        requires
            fits_i8(self@.co5_place()),
        ensures
            order == self@.co5_place(),
    {
        let acci: i16 = self.tone as i16 - self.step.diatonic_tone() as i16;
        let order: i16 = self.step.co5_order() as i16 + 7 * acci;
        order as i8
    }
}

impl Co5Order for OStep {
    type Output = i8;

    open spec fn has_co5_order(&self) -> bool {
        true
    }

    open spec fn co5_order_spec(&self) -> int {
        self.co5_place()
    }

    fn co5_order(self) -> (order: i8)
        ensures
            order == self.co5_order_spec(),
    {
        OStep::co5_order(self)
    }
}

impl FromCo5Order<i8> for OStep {
    open spec fn from_co5_order_spec(order: i8) -> OStep {
        OStep::at_co5_place(order as int)
    }

    fn from_co5_order(order: i8) -> (r: OStep)
        ensures
            r == OStep::at_co5_place(order as int),
    {
        OStep::from_co5_order(order)
    }
}

impl Co5Order for OPitch {
    type Output = i8;

    /// The place can be held where it fits an `i8`: for the accidentals
    /// from eighteen flats to seventeen sharps on every step.
    open spec fn has_co5_order(&self) -> bool {
        fits_i8(self@.co5_place())
    }

    open spec fn co5_order_spec(&self) -> int {
        self@.co5_place()
    }

    fn co5_order(self) -> (order: i8)
        ensures
            order == self.co5_order_spec(),
    {
        OPitch::co5_order(self)
    }
}

impl FromCo5Order<i8> for OPitch {
    open spec fn from_co5_order_spec(order: i8) -> OPitch {
        OPitch::of_model(PitchModel::at_co5_place(order as int))
    }

    fn from_co5_order(order: i8) -> (r: OPitch)
        ensures
            r@ == PitchModel::at_co5_place(order as int),
    {
        OPitch::from_co5_order(order)
    }
}

} // verus!
