//! Interval degrees, qualities and intervals.
//!
//! As with pitches, each concept comes reduced to one octave
//! (`OIntervalDeg`, `OInterval`) and absolute (`IntervalDeg`, `Interval`).

use crate::num::{div_mod_i8, fits_i8, mod_op_i8};
use crate::pitch::edo12::base::{OStep, PitchModel, Step};
use crate::pitch::edo12::error::NotationError;
use crate::traits::FromMod;
use vstd::prelude::*;

verus! {

/// The quality of an interval. `Diminished` and `Augmented` carry how many
/// semitones the interval is narrower or wider than the nearest plain
/// quality; in an interval that was derived from pitches that number is
/// never 0.
#[derive(Clone, Copy, PartialEq, Eq, Debug, Structural)]
pub enum IntervalQual {
    Diminished(u8),
    Minor,
    Perfect,
    Major,
    Augmented(u8),
}

impl IntervalQual {
    /// Whether the quality is one that a pitch can have: a diminished or
    /// augmented quality is so by at least one semitone.
    pub open spec fn is_proper(self) -> bool {
        match self {
            IntervalQual::Diminished(n) => n >= 1,
            IntervalQual::Augmented(n) => n >= 1,
            _ => true,
        }
    }

    /// How many semitones the quality is diminished or augmented by; 0 for
    /// the plain qualities.
    pub open spec fn magnitude(self) -> int {
        match self {
            IntervalQual::Diminished(n) => n as int,
            IntervalQual::Augmented(n) => n as int,
            _ => 0,
        }
    }

    /// The tier of the quality: -1 for the diminished qualities, 1 for
    /// the augmented ones, 0 for minor, perfect and major.
    pub open spec fn tier(self) -> int {
        match self {
            IntervalQual::Diminished(_) => -1,
            IntervalQual::Augmented(_) => 1,
            _ => 0,
        }
    }

    /// Whether the quality can stand on a degree of the given class:
    /// `Major` and `Minor` only on the imperfect degrees (second, third,
    /// sixth, seventh), `Perfect` only on the perfect ones (unison, fourth,
    /// fifth), `Diminished` and `Augmented` on every degree.
    pub open spec fn suits_class(self, perfect: bool) -> bool {
        match self {
            IntervalQual::Major | IntervalQual::Minor => !perfect,
            IntervalQual::Perfect => perfect,
            _ => true,
        }
    }

    /// Whether the quality can stand on the degree.
    pub open spec fn suits(self, deg: OIntervalDeg) -> bool {
        self.suits_class(deg.is_perfect_class())
    }

    /// The quality of a step of the given class whose tone lies `diff`
    /// semitones above its natural tone.
    pub open spec fn of_offset(perfect: bool, diff: int) -> IntervalQual {
        if perfect {
            if diff == 0 {
                IntervalQual::Perfect
            } else if diff > 0 {
                IntervalQual::Augmented(diff as u8)
            } else {
                IntervalQual::Diminished((-diff) as u8)
            }
        } else {
            if diff == 0 {
                IntervalQual::Major
            } else if diff == -1 {
                IntervalQual::Minor
            } else if diff > 0 {
                IntervalQual::Augmented(diff as u8)
            } else {
                IntervalQual::Diminished((-diff - 1) as u8)
            }
        }
    }

    /// How many semitones above its natural tone a step of the given class
    /// lies when it has this quality; `None` where the quality cannot stand
    /// on that class.
    pub open spec fn offset(self, perfect: bool) -> Option<int> {
        match self {
            IntervalQual::Perfect => if perfect {
                Some(0int)
            } else {
                None
            },
            IntervalQual::Major => if perfect {
                None
            } else {
                Some(0int)
            },
            IntervalQual::Minor => if perfect {
                None
            } else {
                Some(-1int)
            },
            IntervalQual::Augmented(n) => Some(n as int),
            IntervalQual::Diminished(n) => if perfect {
                Some(-(n as int))
            } else {
                Some(-(n as int) - 1)
            },
        }
    }
}

/// One of the seven degrees within an octave. The number of a degree is
/// one less than its musical name says: a unison is 0, a seventh 6.
#[derive(Clone, Copy, PartialEq, Eq, PartialOrd, Ord, Debug, Structural)]
pub enum OIntervalDeg {
    Unison,
    Second,
    Third,
    Fourth,
    Fifth,
    Sixth,
    Seventh,
}

impl View for OIntervalDeg {
    type V = int;

    /// The number of the degree, from 0 for a unison to 6 for a seventh.
    open spec fn view(&self) -> int {
        match self {
            OIntervalDeg::Unison => 0,
            OIntervalDeg::Second => 1,
            OIntervalDeg::Third => 2,
            OIntervalDeg::Fourth => 3,
            OIntervalDeg::Fifth => 4,
            OIntervalDeg::Sixth => 5,
            OIntervalDeg::Seventh => 6,
        }
    }
}

impl OIntervalDeg {
    /// The degree whose number is congruent to `n` modulo 7.
    pub open spec fn of_int(n: int) -> OIntervalDeg {
        let r = n % 7;
        if r == 0 {
            OIntervalDeg::Unison
        } else if r == 1 {
            OIntervalDeg::Second
        } else if r == 2 {
            OIntervalDeg::Third
        } else if r == 3 {
            OIntervalDeg::Fourth
        } else if r == 4 {
            OIntervalDeg::Fifth
        } else if r == 5 {
            OIntervalDeg::Sixth
        } else {
            OIntervalDeg::Seventh
        }
    }

    /// Whether the degree is a unison, a fourth or a fifth.
    pub open spec fn is_perfect_class(self) -> bool {
        self == OIntervalDeg::Unison || self == OIntervalDeg::Fourth || self
            == OIntervalDeg::Fifth
    }

    /// The step that lies this degree above C.
    pub open spec fn step(self) -> OStep {
        OStep::of_int(self@)
    }

    /// The number of the degree.
    pub fn index(self) -> (i: u8)
        ensures
            i == self@,
    {
        match self {
            OIntervalDeg::Unison => 0,
            OIntervalDeg::Second => 1,
            OIntervalDeg::Third => 2,
            OIntervalDeg::Fourth => 3,
            OIntervalDeg::Fifth => 4,
            OIntervalDeg::Sixth => 5,
            OIntervalDeg::Seventh => 6,
        }
    }

    /// The degree of the given number, if the number is below 7.
    pub fn from_index(i: u8) -> (deg: Option<OIntervalDeg>)
        ensures
            i < 7 ==> deg == Some(OIntervalDeg::of_int(i as int)),
            i >= 7 ==> deg is None,
    {
        match i {
            0 => Some(OIntervalDeg::Unison),
            1 => Some(OIntervalDeg::Second),
            2 => Some(OIntervalDeg::Third),
            3 => Some(OIntervalDeg::Fourth),
            4 => Some(OIntervalDeg::Fifth),
            5 => Some(OIntervalDeg::Sixth),
            6 => Some(OIntervalDeg::Seventh),
            _ => None,
        }
    }

    /// Whether the degree is a unison, a fourth or a fifth.
    pub fn is_perfect(self) -> (perfect: bool)
        ensures
            perfect == self.is_perfect_class(),
    {
        match self {
            OIntervalDeg::Unison | OIntervalDeg::Fourth | OIntervalDeg::Fifth => true,
            _ => false,
        }
    }
}

impl FromMod<i8> for OIntervalDeg {
    open spec fn mod_spec(value: i8) -> OIntervalDeg {
        OIntervalDeg::of_int(value as int)
    }

    fn from_mod(value: i8) -> (r: OIntervalDeg)
        ensures
            r == OIntervalDeg::of_int(value as int),
    {
        let i = mod_op_i8(value, 7);
        match i {
            0 => OIntervalDeg::Unison,
            1 => OIntervalDeg::Second,
            2 => OIntervalDeg::Third,
            3 => OIntervalDeg::Fourth,
            4 => OIntervalDeg::Fifth,
            5 => OIntervalDeg::Sixth,
            _ => OIntervalDeg::Seventh,
        }
    }
}

impl vstd::std_specs::convert::FromSpecImpl<OStep> for OIntervalDeg {
    open spec fn obeys_from_spec() -> bool {
        true
    }

    open spec fn from_spec(value: OStep) -> OIntervalDeg {
        OIntervalDeg::of_int(value@)
    }
}

impl From<OStep> for OIntervalDeg {
    fn from(value: OStep) -> (r: OIntervalDeg)
        ensures
            r == OIntervalDeg::of_int(value@),
    {
        OIntervalDeg::from_index(value.index()).unwrap()
    }
}

impl vstd::std_specs::convert::FromSpecImpl<Step> for OIntervalDeg {
    open spec fn obeys_from_spec() -> bool {
        true
    }

    open spec fn from_spec(value: Step) -> OIntervalDeg {
        OIntervalDeg::of_int(value@)
    }
}

impl From<Step> for OIntervalDeg {
    fn from(value: Step) -> (r: OIntervalDeg)
        ensures
            r == OIntervalDeg::of_int(value@),
    {
        OIntervalDeg::from_mod(value.0)
    }
}

impl vstd::std_specs::convert::FromSpecImpl<IntervalDeg> for OIntervalDeg {
    open spec fn obeys_from_spec() -> bool {
        true
    }

    open spec fn from_spec(value: IntervalDeg) -> OIntervalDeg {
        OIntervalDeg::of_int(value@)
    }
}

impl From<IntervalDeg> for OIntervalDeg {
    fn from(value: IntervalDeg) -> (r: OIntervalDeg)
        ensures
            r == OIntervalDeg::of_int(value@),
    {
        OIntervalDeg::from_mod(value.0)
    }
}

impl vstd::std_specs::convert::FromSpecImpl<OIntervalDeg> for OStep {
    open spec fn obeys_from_spec() -> bool {
        true
    }

    open spec fn from_spec(value: OIntervalDeg) -> OStep {
        value.step()
    }
}

impl From<OIntervalDeg> for OStep {
    fn from(value: OIntervalDeg) -> (r: OStep)
        ensures
            r == value.step(),
    {
        OStep::from_index(value.index()).unwrap()
    }
}

/// A degree counted from the unison, upwards or downwards without bound: an
/// octave is 7, a ninth 8.
#[derive(Clone, Copy, PartialEq, Eq, PartialOrd, Ord, Debug, Structural)]
pub struct IntervalDeg(pub i8);

impl View for IntervalDeg {
    type V = int;

    open spec fn view(&self) -> int {
        self.0 as int
    }
}

impl IntervalDeg {
    /// The degree within its octave.
    pub open spec fn odeg(self) -> OIntervalDeg {
        OIntervalDeg::of_int(self@)
    }

    pub fn from_odeg_and_octave(odeg: OIntervalDeg, octave: i8) -> (deg: IntervalDeg)
        requires
            fits_i8(odeg@ + 7 * octave),
        ensures
            deg@ == odeg@ + 7 * octave,
    {
        let deg: i16 = odeg.index() as i16 + 7 * (octave as i16);
        IntervalDeg(deg as i8)
    }

    pub fn octave(&self) -> (octave: i8)
        ensures
            octave == self@ / 7,
    {
        div_mod_i8(self.0, 7).0
    }

    pub fn into_odeg_and_octave(&self) -> (parts: (OIntervalDeg, i8))
        ensures
            parts.0 == self.odeg(),
            parts.1 == self@ / 7,
            self@ == parts.0@ + 7 * parts.1,
    {
        let (octave, _) = div_mod_i8(self.0, 7);
        (OIntervalDeg::from_mod(self.0), octave)
    }
}

impl vstd::std_specs::convert::FromSpecImpl<Step> for IntervalDeg {
    open spec fn obeys_from_spec() -> bool {
        true
    }

    open spec fn from_spec(value: Step) -> IntervalDeg {
        IntervalDeg(value.0)
    }
}

impl From<Step> for IntervalDeg {
    fn from(value: Step) -> (r: IntervalDeg)
        ensures
            r == IntervalDeg(value.0),
    {
        IntervalDeg(value.0)
    }
}

impl vstd::std_specs::convert::FromSpecImpl<OStep> for IntervalDeg {
    open spec fn obeys_from_spec() -> bool {
        true
    }

    open spec fn from_spec(value: OStep) -> IntervalDeg {
        IntervalDeg(value@ as i8)
    }
}

impl From<OStep> for IntervalDeg {
    fn from(value: OStep) -> (r: IntervalDeg)
        ensures
            r == IntervalDeg(value@ as i8),
    {
        IntervalDeg(value.index() as i8)
    }
}

impl vstd::std_specs::convert::FromSpecImpl<OIntervalDeg> for IntervalDeg {
    open spec fn obeys_from_spec() -> bool {
        true
    }

    open spec fn from_spec(value: OIntervalDeg) -> IntervalDeg {
        IntervalDeg(value@ as i8)
    }
}

impl From<OIntervalDeg> for IntervalDeg {
    fn from(value: OIntervalDeg) -> (r: IntervalDeg)
        ensures
            r == IntervalDeg(value@ as i8),
    {
        IntervalDeg(value.index() as i8)
    }
}

impl vstd::std_specs::convert::FromSpecImpl<i8> for IntervalDeg {
    open spec fn obeys_from_spec() -> bool {
        true
    }

    open spec fn from_spec(value: i8) -> IntervalDeg {
        IntervalDeg(value)
    }
}

impl From<i8> for IntervalDeg {
    fn from(value: i8) -> (r: IntervalDeg)
        ensures
            r == IntervalDeg(value),
    {
        IntervalDeg(value)
    }
}

impl vstd::std_specs::convert::FromSpecImpl<IntervalDeg> for i8 {
    open spec fn obeys_from_spec() -> bool {
        true
    }

    open spec fn from_spec(value: IntervalDeg) -> i8 {
        value.0
    }
}

impl From<IntervalDeg> for i8 {
    fn from(value: IntervalDeg) -> (r: i8)
        ensures
            r == value.0,
    {
        value.0
    }
}

impl vstd::std_specs::convert::FromSpecImpl<IntervalDeg> for Step {
    open spec fn obeys_from_spec() -> bool {
        true
    }

    open spec fn from_spec(value: IntervalDeg) -> Step {
        Step(value.0)
    }
}

impl From<IntervalDeg> for Step {
    fn from(value: IntervalDeg) -> (r: Step)
        ensures
            r == Step(value.0),
    {
        Step(value.0)
    }
}

/// An interval as a pair of a mathematical integer, its degree, and a
/// quality. Every `OInterval` and `Interval` stands for one.
pub struct IntervalModel {
    pub deg: int,
    pub qual: IntervalQual,
}

impl PitchModel {
    /// The interval from C of octave 0 to the pitch: its degree is the
    /// step, its quality that of the pitch.
    pub open spec fn interval(self) -> IntervalModel {
        IntervalModel {
            deg: self.step,
            qual: IntervalQual::of_offset(
                OStep::of_int(self.step).is_perfect_class(),
                self.acci(),
            ),
        }
    }
}

impl IntervalModel {
    /// How many semitones wide the interval is: the natural tone of the
    /// step that lies its degree above C, altered as the quality says.
    pub open spec fn semitones(self) -> int {
        let natural = PitchModel { step: self.deg, tone: 0 }.natural_tone();
        match self.qual.offset(OStep::of_int(self.deg).is_perfect_class()) {
            Some(offset) => natural + offset,
            None => natural,
        }
    }

    /// The pitch that lies the interval above C of octave 0.
    pub open spec fn pitch(self) -> PitchModel {
        PitchModel { step: self.deg, tone: self.semitones() }
    }

    /// Whether quality and degree go together.
    pub open spec fn is_valid(self) -> bool {
        self.qual.suits(OIntervalDeg::of_int(self.deg))
    }

    /// The same interval within one octave.
    pub open spec fn reduce(self) -> IntervalModel {
        IntervalModel { deg: self.deg % 7, qual: self.qual }
    }

    /// The same interval widened by `octave` octaves.
    pub open spec fn lift(self, octave: int) -> IntervalModel {
        IntervalModel { deg: self.deg + 7 * octave, qual: self.qual }
    }
}

/// An interval within one octave: a degree and a quality that can stand on
/// it. No value of this type pairs `Major` or `Minor` with a unison, fourth
/// or fifth, or `Perfect` with another degree.
#[derive(Clone, Copy, PartialEq, Eq, Debug, Structural)]
pub struct OInterval {
    pub(crate) deg: OIntervalDeg,
    pub(crate) qual: IntervalQual,
}

impl OInterval {
    #[verifier::type_invariant]
    pub open(crate) spec fn is_valid(self) -> bool {
        self.qual.suits(self.deg)
    }

    pub open(crate) spec fn view(self) -> IntervalModel {
        IntervalModel { deg: self.deg@, qual: self.qual }
    }

    /// The interval of the given degree and quality.
    pub open(crate) spec fn of_parts(deg: OIntervalDeg, qual: IntervalQual) -> OInterval {
        OInterval { deg, qual }
    }

    /// The interval that stands for `m`.
    pub open spec fn of_model(m: IntervalModel) -> OInterval {
        OInterval::of_parts(OIntervalDeg::of_int(m.deg), m.qual)
    }

    pub fn try_from_deg_and_qual(deg: OIntervalDeg, qual: IntervalQual) -> (r: Result<
        OInterval,
        NotationError,
    >)
        ensures
            qual.suits(deg) ==> r == Ok::<OInterval, NotationError>(OInterval::of_parts(deg, qual)),
            !qual.suits(deg) ==> r == Err::<OInterval, NotationError>(
                NotationError::InvalidDegreeQualityPairing,
            ),
    {
        let perfect = deg.is_perfect();
        match qual {
            IntervalQual::Major | IntervalQual::Minor => if perfect {
                return Err(NotationError::InvalidDegreeQualityPairing);
            },
            IntervalQual::Perfect => if !perfect {
                return Err(NotationError::InvalidDegreeQualityPairing);
            },
            _ => {},
        }
        Ok(OInterval { deg, qual })
    }

    pub fn from_deg_and_qual(deg: OIntervalDeg, qual: IntervalQual) -> (interval: OInterval)
        requires
            qual.suits(deg),
        ensures
            interval == OInterval::of_parts(deg, qual),
    {
        OInterval { deg, qual }
    }

    /// The interval of a degree and a quality that are known to go
    /// together, without the test that `try_from_deg_and_qual` makes.
    pub fn from_deg_and_qual_unchecked(deg: OIntervalDeg, qual: IntervalQual) -> (interval:
        OInterval)
        requires
            qual.suits(deg),
        ensures
            interval == OInterval::of_parts(deg, qual),
    {
        OInterval { deg, qual }
    }

    pub fn deg(&self) -> (deg: OIntervalDeg)
        ensures
            deg@ == self@.deg,
            self@.is_valid(),
    {
        proof {
            use_type_invariant(self);
        }
        self.deg
    }
}

impl vstd::std_specs::convert::FromSpecImpl<Interval> for OInterval {
    open spec fn obeys_from_spec() -> bool {
        true
    }

    open spec fn from_spec(value: Interval) -> OInterval {
        OInterval::of_model(value@.reduce())
    }
}

impl From<Interval> for OInterval {
    fn from(value: Interval) -> (r: OInterval)
        ensures
            r == OInterval::of_model(value@.reduce()),
    {
        proof {
            use_type_invariant(value);
        }
        OInterval { deg: OIntervalDeg::from_mod(value.deg.0), qual: value.qual }
    }
}

/// An interval of any width: a degree and a quality that can stand on it.
/// As with `OInterval`, no value of this type pairs a quality with a degree
/// that it does not suit.
#[derive(Clone, Copy, PartialEq, Eq, Debug, Structural)]
pub struct Interval {
    pub(crate) deg: IntervalDeg,
    pub(crate) qual: IntervalQual,
}

impl Interval {
    #[verifier::type_invariant]
    pub open(crate) spec fn is_valid(self) -> bool {
        self.qual.suits(self.deg.odeg())
    }

    pub open(crate) spec fn view(self) -> IntervalModel {
        IntervalModel { deg: self.deg@, qual: self.qual }
    }

    /// The interval of the given degree and quality.
    pub open(crate) spec fn of_parts(deg: IntervalDeg, qual: IntervalQual) -> Interval {
        Interval { deg, qual }
    }

    /// The interval that stands for `m`, where its degree fits.
    pub open spec fn of_model(m: IntervalModel) -> Interval {
        Interval::of_parts(IntervalDeg(m.deg as i8), m.qual)
    }

    pub fn from_ointerval_and_octave(ointerval: OInterval, octave: i8) -> (interval: Interval)
        requires
            fits_i8(ointerval@.lift(octave as int).deg),
        ensures
            interval@ == ointerval@.lift(octave as int),
    {
        proof {
            use_type_invariant(ointerval);
        }
        let deg: i16 = ointerval.deg.index() as i16 + 7 * (octave as i16);
        Interval { deg: IntervalDeg(deg as i8), qual: ointerval.qual }
    }

    pub fn from_deg_and_qual(deg: IntervalDeg, qual: IntervalQual) -> (r: Result<
        Interval,
        NotationError,
    >)
        ensures
            qual.suits(deg.odeg()) ==> r == Ok::<Interval, NotationError>(
                Interval::of_parts(deg, qual),
            ),
            !qual.suits(deg.odeg()) ==> r == Err::<Interval, NotationError>(
                NotationError::InvalidDegreeQualityPairing,
            ),
    {
        let perfect = OIntervalDeg::from_mod(deg.0).is_perfect();
        match qual {
            IntervalQual::Major | IntervalQual::Minor => if perfect {
                return Err(NotationError::InvalidDegreeQualityPairing);
            },
            IntervalQual::Perfect => if !perfect {
                return Err(NotationError::InvalidDegreeQualityPairing);
            },
            _ => {},
        }
        Ok(Interval { deg, qual })
    }

    /// The interval of a degree and a quality that are known to go
    /// together, without the test that `from_deg_and_qual` makes.
    pub fn from_deg_and_qual_unchecked(deg: IntervalDeg, qual: IntervalQual) -> (interval:
        Interval)
        requires
            qual.suits(deg.odeg()),
        ensures
            interval == Interval::of_parts(deg, qual),
    {
        Interval { deg, qual }
    }

    pub fn deg(&self) -> (deg: IntervalDeg)
        ensures
            deg@ == self@.deg,
            self@.is_valid(),
    {
        proof {
            use_type_invariant(self);
        }
        self.deg
    }

    pub fn odeg(&self) -> (odeg: OIntervalDeg)
        ensures
            odeg == OIntervalDeg::of_int(self@.deg),
    {
        OIntervalDeg::from_mod(self.deg.0)
    }

    pub fn octave(&self) -> (octave: i8)
        ensures
            octave == self@.deg / 7,
    {
        self.deg.octave()
    }
}

impl vstd::std_specs::convert::FromSpecImpl<OInterval> for Interval {
    open spec fn obeys_from_spec() -> bool {
        true
    }

    open spec fn from_spec(value: OInterval) -> Interval {
        Interval::of_model(value@)
    }
}

impl From<OInterval> for Interval {
    fn from(value: OInterval) -> (r: Interval)
        ensures
            r == Interval::of_model(value@),
    {
        proof {
            use_type_invariant(value);
        }
        Interval { deg: IntervalDeg(value.deg.index() as i8), qual: value.qual }
    }
}

impl vstd::std_specs::convert::FromSpecImpl<OIntervalDeg> for u8 {
    open spec fn obeys_from_spec() -> bool {
        true
    }

    open spec fn from_spec(value: OIntervalDeg) -> u8 {
        value@ as u8
    }
}

impl From<OIntervalDeg> for u8 {
    fn from(value: OIntervalDeg) -> (r: u8)
        ensures
            r == value@ as u8,
    {
        value.index()
    }
}

} // verus!
