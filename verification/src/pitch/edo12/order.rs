//! Ordering: of qualities, which is partial; of intervals; and of steps,
//! degrees, pitches and intervals by their distance from zero.

use crate::num::{cmp_abs_i8, compare, eq_abs_i8, magnitude};
use crate::pitch::edo12::base::{Pitch, Step};
use crate::pitch::edo12::interval::{Interval, IntervalDeg, IntervalQual, OInterval};
use std::cmp::Ordering;
use vstd::prelude::*;

verus! {

impl IntervalQual {
    /// How the quality compares with another. Every diminished quality
    /// lies below minor, perfect and major, and every augmented one above
    /// them; among the diminished ones the larger number lies lower, among
    /// the augmented ones higher; minor lies below major. Perfect can be
    /// compared with neither minor nor major.
    pub open spec fn compare_with(self, other: IntervalQual) -> Option<Ordering> {
        if self.tier() != other.tier() {
            Some(compare(self.tier(), other.tier()))
        } else if self.tier() == 1 {
            Some(compare(self.magnitude(), other.magnitude()))
        } else if self.tier() == -1 {
            Some(compare(other.magnitude(), self.magnitude()))
        } else if self == other {
            Some(Ordering::Equal)
        } else if self == IntervalQual::Major && other == IntervalQual::Minor {
            Some(Ordering::Greater)
        } else if self == IntervalQual::Minor && other == IntervalQual::Major {
            Some(Ordering::Less)
        } else {
            None
        }
    }

    /// How the quality compares with another when the direction of each is
    /// dropped: diminished and augmented count alike, by their number, and
    /// lie above the plain qualities; minor and major count alike. Perfect
    /// can be compared with neither minor nor major.
    pub open spec fn compare_abs_with(self, other: IntervalQual) -> Option<Ordering> {
        if self.tier() != 0 && other.tier() != 0 {
            Some(compare(self.magnitude(), other.magnitude()))
        } else if self.tier() != 0 {
            Some(Ordering::Greater)
        } else if other.tier() != 0 {
            Some(Ordering::Less)
        } else if (self == IntervalQual::Perfect) == (other == IntervalQual::Perfect) {
            Some(Ordering::Equal)
        } else {
            None
        }
    }

    /// Two qualities that suit degrees of the same class can be compared.
    pub proof fn lemma_comparable_on_class(self, other: IntervalQual, perfect: bool)
        requires
            self.suits_class(perfect),
            other.suits_class(perfect),
        ensures
            self.compare_with(other) is Some,
    {
    }

    pub fn partial_cmp_abs(&self, other: &IntervalQual) -> (r: Option<Ordering>)
        ensures
            r == self.compare_abs_with(*other),
    {
        match (*self, *other) {
            (
                IntervalQual::Augmented(a) | IntervalQual::Diminished(a),
                IntervalQual::Augmented(b) | IntervalQual::Diminished(b),
            ) => Some(order_u8(a, b)),
            (IntervalQual::Perfect, IntervalQual::Perfect) => Some(Ordering::Equal),
            (
                IntervalQual::Major | IntervalQual::Minor,
                IntervalQual::Major | IntervalQual::Minor,
            ) => Some(Ordering::Equal),
            (IntervalQual::Augmented(_) | IntervalQual::Diminished(_), _) => Some(
                Ordering::Greater,
            ),
            (_, IntervalQual::Augmented(_) | IntervalQual::Diminished(_)) => Some(Ordering::Less),
            _ => None,
        }
    }
}

/// How two numbers compare.
fn order_u8(a: u8, b: u8) -> (r: Ordering)
    ensures
        a < b <==> r == Ordering::Less,
        a == b <==> r == Ordering::Equal,
        a > b <==> r == Ordering::Greater,
{
    if a < b {
        Ordering::Less
    } else if a == b {
        Ordering::Equal
    } else {
        Ordering::Greater
    }
}

impl vstd::std_specs::cmp::PartialOrdSpecImpl for IntervalQual {
    open spec fn obeys_partial_cmp_spec() -> bool {
        true
    }

    open spec fn partial_cmp_spec(&self, other: &IntervalQual) -> Option<Ordering> {
        self.compare_with(*other)
    }
}

impl PartialOrd for IntervalQual {
    fn partial_cmp(&self, other: &IntervalQual) -> (r: Option<Ordering>)
        ensures
            r == self.compare_with(*other),
    {
        match (*self, *other) {
            (IntervalQual::Augmented(a), IntervalQual::Augmented(b)) => Some(order_u8(a, b)),
            (IntervalQual::Diminished(a), IntervalQual::Diminished(b)) => Some(order_u8(b, a)),
            (IntervalQual::Augmented(_), _) | (_, IntervalQual::Diminished(_)) => Some(
                Ordering::Greater,
            ),
            (_, IntervalQual::Augmented(_)) | (IntervalQual::Diminished(_), _) => Some(
                Ordering::Less,
            ),
            (IntervalQual::Major, IntervalQual::Minor) => Some(Ordering::Greater),
            (IntervalQual::Minor, IntervalQual::Major) => Some(Ordering::Less),
            (IntervalQual::Minor, IntervalQual::Minor) => Some(Ordering::Equal),
            (IntervalQual::Major, IntervalQual::Major) => Some(Ordering::Equal),
            (IntervalQual::Perfect, IntervalQual::Perfect) => Some(Ordering::Equal),
            _ => None,
        }
    }
}

impl OInterval {
    /// How the interval compares with another: by degree, and between
    /// equal degrees by quality. Qualities on one degree can always be
    /// compared.
    pub open spec fn cmp_spec(self, other: OInterval) -> Ordering {
        if self@.deg != other@.deg {
            compare(self@.deg, other@.deg)
        } else {
            match self@.qual.compare_with(other@.qual) {
                Some(order) => order,
                None => Ordering::Equal,
            }
        }
    }

    pub fn cmp(&self, other: &OInterval) -> (r: Ordering)
        ensures
            r == self.cmp_spec(*other),
            self@.deg == other@.deg ==> Some(r) == self@.qual.compare_with(other@.qual),
    {
        proof {
            use_type_invariant(self);
            use_type_invariant(other);
            if self.deg == other.deg {
                self.qual.lemma_comparable_on_class(other.qual, self.deg.is_perfect_class());
            }
        }
        match order_u8(self.deg.index(), other.deg.index()) {
            Ordering::Equal => self.qual.partial_cmp(&other.qual).unwrap(),
            order => order,
        }
    }
}

impl vstd::std_specs::cmp::PartialOrdSpecImpl for OInterval {
    open spec fn obeys_partial_cmp_spec() -> bool {
        true
    }

    open spec fn partial_cmp_spec(&self, other: &OInterval) -> Option<Ordering> {
        Some(self.cmp_spec(*other))
    }
}

impl PartialOrd for OInterval {
    fn partial_cmp(&self, other: &OInterval) -> (r: Option<Ordering>)
        ensures
            r == Some(self.cmp_spec(*other)),
    {
        Some(self.cmp(other))
    }
}

/// How two numbers compare.
fn order_i8(a: i8, b: i8) -> (r: Ordering)
    ensures
        a < b <==> r == Ordering::Less,
        a == b <==> r == Ordering::Equal,
        a > b <==> r == Ordering::Greater,
{
    if a < b {
        Ordering::Less
    } else if a == b {
        Ordering::Equal
    } else {
        Ordering::Greater
    }
}

impl Interval {
    /// How the interval compares with another: by degree, and between
    /// equal degrees by quality. Qualities on one degree can always be
    /// compared.
    pub open spec fn cmp_spec(self, other: Interval) -> Ordering {
        if self@.deg != other@.deg {
            compare(self@.deg, other@.deg)
        } else {
            match self@.qual.compare_with(other@.qual) {
                Some(order) => order,
                None => Ordering::Equal,
            }
        }
    }

    pub fn cmp(&self, other: &Interval) -> (r: Ordering)
        ensures
            r == self.cmp_spec(*other),
            self@.deg == other@.deg ==> Some(r) == self@.qual.compare_with(other@.qual),
    {
        proof {
            use_type_invariant(self);
            use_type_invariant(other);
            if self.deg == other.deg {
                self.qual.lemma_comparable_on_class(
                    other.qual,
                    self.deg.odeg().is_perfect_class(),
                );
            }
        }
        match order_i8(self.deg.0, other.deg.0) {
            Ordering::Equal => self.qual.partial_cmp(&other.qual).unwrap(),
            order => order,
        }
    }
}

impl vstd::std_specs::cmp::PartialOrdSpecImpl for Interval {
    open spec fn obeys_partial_cmp_spec() -> bool {
        true
    }

    open spec fn partial_cmp_spec(&self, other: &Interval) -> Option<Ordering> {
        Some(self.cmp_spec(*other))
    }
}

impl PartialOrd for Interval {
    fn partial_cmp(&self, other: &Interval) -> (r: Option<Ordering>)
        ensures
            r == Some(self.cmp_spec(*other)),
    {
        Some(self.cmp(other))
    }
}

impl Step {
    /// How far the step lies from C of octave 0, compared with another.
    pub fn cmp_abs(&self, other: &Step) -> (r: Ordering)
        ensures
            r == compare(magnitude(self.0), magnitude(other.0)),
    {
        cmp_abs_i8(self.0, other.0)
    }

    pub fn partial_cmp_abs(&self, other: &Step) -> (r: Option<Ordering>)
        ensures
            r == Some(compare(magnitude(self.0), magnitude(other.0))),
    {
        Some(self.cmp_abs(other))
    }

    /// Whether the two steps lie equally far from C of octave 0.
    pub fn eq_abs(&self, other: &Step) -> (r: bool)
        ensures
            r == (magnitude(self.0) == magnitude(other.0)),
    {
        eq_abs_i8(self.0, other.0)
    }
}

impl IntervalDeg {
    /// How wide the degree is, whichever way it points, compared with
    /// another.
    pub fn cmp_abs(&self, other: &IntervalDeg) -> (r: Ordering)
        ensures
            r == compare(magnitude(self.0), magnitude(other.0)),
    {
        cmp_abs_i8(self.0, other.0)
    }

    pub fn partial_cmp_abs(&self, other: &IntervalDeg) -> (r: Option<Ordering>)
        ensures
            r == Some(compare(magnitude(self.0), magnitude(other.0))),
    {
        Some(self.cmp_abs(other))
    }

    /// Whether the two degrees are equally wide, whichever way they point.
    pub fn eq_abs(&self, other: &IntervalDeg) -> (r: bool)
        ensures
            r == (magnitude(self.0) == magnitude(other.0)),
    {
        eq_abs_i8(self.0, other.0)
    }
}

impl Pitch {
    /// How the pitch compares with another by distance: first by how far
    /// the steps lie from 0, then by tone.
    pub open spec fn cmp_abs_spec(self, other: Pitch) -> Ordering {
        if magnitude(self.step.0) != magnitude(other.step.0) {
            compare(magnitude(self.step.0), magnitude(other.step.0))
        } else {
            compare(self@.tone, other@.tone)
        }
    }

    pub fn cmp_abs(&self, other: &Pitch) -> (r: Ordering)
        ensures
            r == self.cmp_abs_spec(*other),
    {
        match self.step.cmp_abs(&other.step) {
            Ordering::Equal => order_i8(self.tone, other.tone),
            order => order,
        }
    }

    pub fn partial_cmp_abs(&self, other: &Pitch) -> (r: Option<Ordering>)
        ensures
            r == Some(self.cmp_abs_spec(*other)),
    {
        Some(self.cmp_abs(other))
    }

    /// Whether step and tone of the two pitches each lie equally far from
    /// 0.
    pub fn eq_abs(&self, other: &Pitch) -> (r: bool)
        ensures
            r == (magnitude(self.step.0) == magnitude(other.step.0) && magnitude(self.tone)
                == magnitude(other.tone)),
    {
        self.step.eq_abs(&other.step) && eq_abs_i8(self.tone, other.tone)
    }
}

impl Interval {
    /// How the interval compares with another by width: as the pitches do
    /// that lie the intervals above C of octave 0.
    pub fn cmp_abs(&self, other: &Interval) -> (r: Ordering)
        ensures
            r == Pitch::of_interval(*self).cmp_abs_spec(Pitch::of_interval(*other)),
    {
        Pitch::from(*self).cmp_abs(&Pitch::from(*other))
    }

    pub fn partial_cmp_abs(&self, other: &Interval) -> (r: Option<Ordering>)
        ensures
            r == Some(Pitch::of_interval(*self).cmp_abs_spec(Pitch::of_interval(*other))),
    {
        Some(self.cmp_abs(other))
    }

    /// Whether the two intervals are equally wide: whether the pitches
    /// that lie them above C of octave 0 are `eq_abs`.
    pub fn eq_abs(&self, other: &Interval) -> (r: bool)
        ensures
            r == ({
                let p = Pitch::of_interval(*self);
                let q = Pitch::of_interval(*other);
                magnitude(p.step.0) == magnitude(q.step.0) && magnitude(p.tone) == magnitude(
                    q.tone,
                )
            }),
    {
        Pitch::from(*self).eq_abs(&Pitch::from(*other))
    }
}

} // verus!
