use crate::num::{div_mod_i16, fits_i8, mod_mul_u8, mod_op_i8, wrap_i8, wrap_to_i8};
use crate::pitch::edo12::base::{Acci, OPitch, OStep, Pitch, Step};
use std::ops::Mul;
use vstd::prelude::*;

verus! {

/// Reducing a factor modulo 7 first does not change a product modulo 7.
proof fn lemma_mul_mod_7(a: int, n: int)
    requires
        0 <= a < 7,
    ensures
        (a * (n % 7)) % 7 == (a * n) % 7,
{
    if a == 0 {
    } else if a == 1 {
    } else if a == 2 {
    } else if a == 3 {
    } else if a == 4 {
    } else if a == 5 {
    } else {
    }
}

impl OStep {
    /// The product, counted round the cycle of seven.
    pub open spec fn times(self, rhs: i8) -> OStep {
        OStep::of_int(self@ * rhs)
    }
}

impl vstd::std_specs::ops::MulSpecImpl<i8> for OStep {
    open spec fn obeys_mul_spec() -> bool {
        true
    }

    open spec fn mul_req(self, rhs: i8) -> bool {
        true
    }

    open spec fn mul_spec(self, rhs: i8) -> OStep {
        self.times(rhs)
    }
}

impl Mul<i8> for OStep {
    type Output = OStep;

    fn mul(self, rhs: i8) -> (product: OStep)
        ensures
            product == self.times(rhs),
    {
        let factor: u8 = mod_op_i8(rhs, 7) as u8;
        proof {
            lemma_mul_mod_7(self@, rhs as int);
        }
        OStep::from_index(mod_mul_u8(self.index(), factor, 7)).unwrap()
    }
}

impl OStep {
    /// The product, counted round the cycle of seven.
    pub open spec fn times_unsigned(self, rhs: u8) -> OStep {
        OStep::of_int(self@ * rhs)
    }
}

impl vstd::std_specs::ops::MulSpecImpl<u8> for OStep {
    open spec fn obeys_mul_spec() -> bool {
        true
    }

    open spec fn mul_req(self, rhs: u8) -> bool {
        true
    }

    open spec fn mul_spec(self, rhs: u8) -> OStep {
        self.times_unsigned(rhs)
    }
}

impl Mul<u8> for OStep {
    type Output = OStep;

    fn mul(self, rhs: u8) -> (product: OStep)
        ensures
            product == self.times_unsigned(rhs),
    {
        let factor: u8 = rhs % 7;
        proof {
            lemma_mul_mod_7(self@, rhs as int);
        }
        OStep::from_index(mod_mul_u8(self.index(), factor, 7)).unwrap()
    }
}

/// The product of two eight-bit numbers, which fits sixteen bits.
proof fn lemma_product_bounds(a: int, b: int)
    requires
        -128 <= a <= 127,
        -128 <= b <= 127,
    ensures
        -16256 <= a * b <= 16384,
{
    assert(-16256 <= a * b <= 16384) by (nonlinear_arith)
        requires
            -128 <= a <= 127,
            -128 <= b <= 127,
    ;
}

impl Step {
    /// The product; where it does not fit, it wraps around.
    pub open spec fn times(self, rhs: i8) -> Step {
        Step(wrap_i8(self@ * rhs) as i8)
    }
}

impl vstd::std_specs::ops::MulSpecImpl<i8> for Step {
    open spec fn obeys_mul_spec() -> bool {
        true
    }

    open spec fn mul_req(self, rhs: i8) -> bool {
        true
    }

    open spec fn mul_spec(self, rhs: i8) -> Step {
        self.times(rhs)
    }
}

impl Mul<i8> for Step {
    type Output = Step;

    fn mul(self, rhs: i8) -> (product: Step)
        ensures
            product == self.times(rhs),
    {
        proof {
            lemma_product_bounds(self@, rhs as int);
        }
        Step(wrap_to_i8(self.0 as i32 * rhs as i32))
    }
}

impl Step {
    /// The step multiplied by `rhs`, or `None` where the product does not
    /// fit.
    pub fn checked_mul(self, rhs: i8) -> (product: Option<Step>)
        ensures
            fits_i8(self@ * rhs) ==> product == Some(Step((self@ * rhs) as i8)),
            !fits_i8(self@ * rhs) ==> product is None,
    {
        match self.0.checked_mul(rhs) {
            Some(product) => Some(Step(product)),
            None => None,
        }
    }
}

impl Acci {
    /// The product; where it does not fit, it wraps around.
    pub open spec fn times(self, rhs: i8) -> Acci {
        Acci(wrap_i8(self@ * rhs) as i8)
    }
}

impl vstd::std_specs::ops::MulSpecImpl<i8> for Acci {
    open spec fn obeys_mul_spec() -> bool {
        true
    }

    open spec fn mul_req(self, rhs: i8) -> bool {
        true
    }

    open spec fn mul_spec(self, rhs: i8) -> Acci {
        self.times(rhs)
    }
}

impl Mul<i8> for Acci {
    type Output = Acci;

    fn mul(self, rhs: i8) -> (product: Acci)
        ensures
            product == self.times(rhs),
    {
        proof {
            lemma_product_bounds(self@, rhs as int);
        }
        Acci(wrap_to_i8(self.0 as i32 * rhs as i32))
    }
}

impl Acci {
    /// The accidental multiplied by `rhs`, or `None` where the product
    /// does not fit.
    pub fn checked_mul(self, rhs: i8) -> (product: Option<Acci>)
        ensures
            fits_i8(self@ * rhs) ==> product == Some(Acci((self@ * rhs) as i8)),
            !fits_i8(self@ * rhs) ==> product is None,
    {
        match self.0.checked_mul(rhs) {
            Some(product) => Some(Acci(product)),
            None => None,
        }
    }
}

impl OPitch {
    /// Step and tone are multiplied as if unreduced; the octaves that the
    /// step then spans are given up, and twelve semitones with each.
    pub open spec fn times(self, rhs: i8) -> OPitch {
        OPitch::of_model(self@.times(rhs as int).reduce().wrap_tone())
    }
}

impl vstd::std_specs::ops::MulSpecImpl<i8> for OPitch {
    open spec fn obeys_mul_spec() -> bool {
        true
    }

    open spec fn mul_req(self, rhs: i8) -> bool {
        true
    }

    open spec fn mul_spec(self, rhs: i8) -> OPitch {
        self.times(rhs)
    }
}

impl Mul<i8> for OPitch {
    type Output = OPitch;

    fn mul(self, rhs: i8) -> (product: OPitch)
        ensures
            product == self.times(rhs),
    {
        proof {
            lemma_product_bounds(self.step@, rhs as int);
            lemma_product_bounds(self.tone as int, rhs as int);
        }
        let steps: i16 = self.step.index() as i16 * rhs as i16;
        let (octave, step) = div_mod_i16(steps, 7);
        let tone: i32 = self.tone as i32 * rhs as i32 - 12 * (octave as i32);
        OPitch { step: OStep::from_index(step as u8).unwrap(), tone: wrap_to_i8(tone) }
    }
}

impl OPitch {
    /// What `checked_mul` returns: the product, unless its tone leaves the
    /// range of an `i8`.
    pub open spec fn checked_mul_spec(self, rhs: i8) -> Option<OPitch> {
        let product = self@.times(rhs as int).reduce();
        if fits_i8(product.tone) {
            Some(OPitch::of_model(product))
        } else {
            None
        }
    }

    /// The pitch multiplied by `rhs`, or `None` where the tone overflows.
    pub fn checked_mul(self, rhs: i8) -> (product: Option<OPitch>)
        ensures
            product == self.checked_mul_spec(rhs),
            product is Some ==> product->0 == self.times(rhs),
    {
        proof {
            lemma_product_bounds(self.step@, rhs as int);
            lemma_product_bounds(self.tone as int, rhs as int);
        }
        let steps: i16 = self.step.index() as i16 * rhs as i16;
        let (octave, step) = div_mod_i16(steps, 7);
        let tone: i32 = self.tone as i32 * rhs as i32 - 12 * (octave as i32);
        if tone < -128 || tone > 127 {
            None
        } else {
            Some(OPitch { step: OStep::from_index(step as u8).unwrap(), tone: tone as i8 })
        }
    }
}

impl Pitch {
    /// Step and tone are multiplied independently.
    pub open spec fn times(self, rhs: i8) -> Pitch {
        Pitch::of_model(self@.times(rhs as int).wrap())
    }
}

impl vstd::std_specs::ops::MulSpecImpl<i8> for Pitch {
    open spec fn obeys_mul_spec() -> bool {
        true
    }

    open spec fn mul_req(self, rhs: i8) -> bool {
        true
    }

    open spec fn mul_spec(self, rhs: i8) -> Pitch {
        self.times(rhs)
    }
}

impl Mul<i8> for Pitch {
    type Output = Pitch;

    fn mul(self, rhs: i8) -> (product: Pitch)
        ensures
            product == self.times(rhs),
    {
        proof {
            lemma_product_bounds(self.step@, rhs as int);
            lemma_product_bounds(self.tone as int, rhs as int);
        }
        Pitch {
            step: Step(wrap_to_i8(self.step.0 as i32 * rhs as i32)),
            tone: wrap_to_i8(self.tone as i32 * rhs as i32),
        }
    }
}

impl Pitch {
    /// What `checked_mul` returns: the product, unless its step or its
    /// tone leaves the range of an `i8`.
    pub open spec fn checked_mul_spec(self, rhs: i8) -> Option<Pitch> {
        let product = self@.times(rhs as int);
        if product.fits_pitch() {
            Some(Pitch::of_model(product))
        } else {
            None
        }
    }

    /// The pitch multiplied by `rhs`, or `None` where step or tone
    /// overflow.
    pub fn checked_mul(self, rhs: i8) -> (product: Option<Pitch>)
        ensures
            product == self.checked_mul_spec(rhs),
            product is Some ==> product->0 == self.times(rhs),
    {
        let step = match self.step.checked_mul(rhs) {
            Some(step) => step,
            None => { return None; },
        };
        let tone = match self.tone.checked_mul(rhs) {
            Some(tone) => tone,
            None => { return None; },
        };
        Some(Pitch { step, tone })
    }
}

} // verus!
