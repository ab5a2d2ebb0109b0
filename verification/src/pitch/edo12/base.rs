//! Steps, accidentals and pitches.
//!
//! Each concept comes twice: reduced to one octave (`OStep`, `OPitch`) and
//! absolute, carrying its octave (`Step`, `Pitch`).

use crate::num::{div_mod_i8, eq_mod_i8, fits_i8, mod_op_i8, wrap_i8, wrap_to_i8};
use crate::pitch::edo12::traits::PitchNotation;
use crate::traits::FromMod;
use vstd::prelude::*;

verus! {

/// One of the seven note names, counted from C.
#[derive(Clone, Copy, PartialEq, Eq, PartialOrd, Ord, Debug, Hash, Structural)]
pub enum OStep {
    C,
    D,
    E,
    F,
    G,
    A,
    B,
}

impl View for OStep {
    type V = int;

    /// The number of the step, from 0 for C to 6 for B.
    open spec fn view(&self) -> int {
        match self {
            OStep::C => 0,
            OStep::D => 1,
            OStep::E => 2,
            OStep::F => 3,
            OStep::G => 4,
            OStep::A => 5,
            OStep::B => 6,
        }
    }
}

impl OStep {
    /// The step whose number is congruent to `n` modulo 7.
    pub open spec fn of_int(n: int) -> OStep {
        let r = n % 7;
        if r == 0 {
            OStep::C
        } else if r == 1 {
            OStep::D
        } else if r == 2 {
            OStep::E
        } else if r == 3 {
            OStep::F
        } else if r == 4 {
            OStep::G
        } else if r == 5 {
            OStep::A
        } else {
            OStep::B
        }
    }

    /// The semitone value of the unaltered step: 0, 2, 4, 5, 7, 9, 11.
    pub open spec fn natural_tone(self) -> int {
        match self {
            OStep::C => 0,
            OStep::D => 2,
            OStep::E => 4,
            OStep::F => 5,
            OStep::G => 7,
            OStep::A => 9,
            OStep::B => 11,
        }
    }

    /// Whether the unaltered step forms a perfect interval with C (unison,
    /// fourth, fifth) rather than a major one.
    pub open spec fn is_perfect_class(self) -> bool {
        self == OStep::C || self == OStep::F || self == OStep::G
    }

    /// The number of the step.
    pub fn index(self) -> (i: u8)
        ensures
            i == self@,
    {
        match self {
            OStep::C => 0,
            OStep::D => 1,
            OStep::E => 2,
            OStep::F => 3,
            OStep::G => 4,
            OStep::A => 5,
            OStep::B => 6,
        }
    }

    /// The step of the given number, if the number is below 7.
    pub fn from_index(i: u8) -> (step: Option<OStep>)
        ensures
            i < 7 ==> step == Some(OStep::of_int(i as int)),
            i >= 7 ==> step is None,
    {
        match i {
            0 => Some(OStep::C),
            1 => Some(OStep::D),
            2 => Some(OStep::E),
            3 => Some(OStep::F),
            4 => Some(OStep::G),
            5 => Some(OStep::A),
            6 => Some(OStep::B),
            _ => None,
        }
    }

    /// The step whose number is congruent to `n` modulo 7.
    pub fn from_number(n: i8) -> (step: OStep)
        ensures
            step == OStep::of_int(n as int),
    {
        let i = mod_op_i8(n, 7);
        match i {
            0 => OStep::C,
            1 => OStep::D,
            2 => OStep::E,
            3 => OStep::F,
            4 => OStep::G,
            5 => OStep::A,
            _ => OStep::B,
        }
    }

    pub fn diatonic_tone(&self) -> (tone: i8)
        ensures
            tone == self.natural_tone(),
    {
        match self {
            OStep::C => 0,
            OStep::D => 2,
            OStep::E => 4,
            OStep::F => 5,
            OStep::G => 7,
            OStep::A => 9,
            OStep::B => 11,
        }
    }

    /// `of_int` yields the step numbered by the remainder, and so does not
    /// tell apart numbers that are congruent modulo 7.
    pub proof fn lemma_view_of_int(n: int)
        ensures
            OStep::of_int(n)@ == n % 7,
            OStep::of_int(n % 7) == OStep::of_int(n),
    {
    }
}

impl FromMod<i8> for OStep {
    open spec fn mod_spec(value: i8) -> OStep {
        OStep::of_int(value as int)
    }

    fn from_mod(value: i8) -> (r: OStep)
        ensures
            r == OStep::of_int(value as int),
    {
        OStep::from_number(value)
    }
}

/// A step counted from C of octave 0, upwards or downwards without bound.
#[derive(Clone, Copy, PartialEq, Eq, PartialOrd, Ord, Debug, Hash, Structural)]
pub struct Step(pub i8);

impl View for Step {
    type V = int;

    open spec fn view(&self) -> int {
        self.0 as int
    }
}

impl Step {
    /// The semitone value of the unaltered step: that of its note name,
    /// raised by twelve for each octave.
    pub open spec fn natural_tone(self) -> int {
        OStep::of_int(self@).natural_tone() + 12 * (self@ / 7)
    }

    pub fn octave(&self) -> (octave: i8)
        ensures
            octave == self@ / 7,
    {
        div_mod_i8(self.0, 7).0
    }

    pub fn into_ostep_and_octave(self) -> (parts: (OStep, i8))
        ensures
            parts.0 == OStep::of_int(self@),
            parts.1 == self@ / 7,
            self@ == parts.0@ + 7 * parts.1,
    {
        let (octave, _) = div_mod_i8(self.0, 7);
        (OStep::from_number(self.0), octave)
    }

    pub fn diatonic_tone(self) -> (tone: i8)
        requires
            fits_i8(self.natural_tone()),
        ensures
            tone == self.natural_tone(),
    {
        let (ostep, octave) = self.into_ostep_and_octave();
        let tone: i16 = ostep.diatonic_tone() as i16 + 12 * (octave as i16);
        tone as i8
    }
}

impl vstd::std_specs::convert::FromSpecImpl<Step> for OStep {
    open spec fn obeys_from_spec() -> bool {
        true
    }

    open spec fn from_spec(value: Step) -> OStep {
        OStep::of_int(value@)
    }
}

impl From<Step> for OStep {
    fn from(value: Step) -> (r: OStep)
        ensures
            r == OStep::of_int(value@),
    {
        OStep::from_number(value.0)
    }
}

impl vstd::std_specs::convert::FromSpecImpl<OStep> for Step {
    open spec fn obeys_from_spec() -> bool {
        true
    }

    open spec fn from_spec(value: OStep) -> Step {
        Step(value@ as i8)
    }
}

impl From<OStep> for Step {
    fn from(value: OStep) -> (r: Step)
        ensures
            r == Step(value@ as i8),
    {
        Step(value.index() as i8)
    }
}

impl vstd::std_specs::convert::FromSpecImpl<i8> for Step {
    open spec fn obeys_from_spec() -> bool {
        true
    }

    open spec fn from_spec(value: i8) -> Step {
        Step(value)
    }
}

impl From<i8> for Step {
    fn from(value: i8) -> (r: Step)
        ensures
            r == Step(value),
    {
        Step(value)
    }
}

impl vstd::std_specs::convert::FromSpecImpl<Step> for i8 {
    open spec fn obeys_from_spec() -> bool {
        true
    }

    open spec fn from_spec(value: Step) -> i8 {
        value.0
    }
}

impl From<Step> for i8 {
    fn from(value: Step) -> (r: i8)
        ensures
            r == value.0,
    {
        value.0
    }
}

/// A signed number of semitones by which a step is raised above its natural
/// tone: sharps are positive, flats negative.
#[derive(Clone, Copy, PartialEq, Eq, PartialOrd, Ord, Debug, Hash, Structural)]
pub struct Acci(pub i8);

impl View for Acci {
    type V = int;

    open spec fn view(&self) -> int {
        self.0 as int
    }
}

impl vstd::std_specs::convert::FromSpecImpl<i8> for Acci {
    open spec fn obeys_from_spec() -> bool {
        true
    }

    open spec fn from_spec(value: i8) -> Acci {
        Acci(value)
    }
}

impl From<i8> for Acci {
    fn from(value: i8) -> (r: Acci)
        ensures
            r == Acci(value),
    {
        Acci(value)
    }
}

impl vstd::std_specs::convert::FromSpecImpl<Acci> for i8 {
    open spec fn obeys_from_spec() -> bool {
        true
    }

    open spec fn from_spec(value: Acci) -> i8 {
        value.0
    }
}

impl From<Acci> for i8 {
    fn from(value: Acci) -> (r: i8)
        ensures
            r == value.0,
    {
        value.0
    }
}

/// A pitch as a pair of mathematical integers: a number of steps and a
/// number of semitones, both counted from C of octave 0. Every `OPitch` and
/// `Pitch` stands for one; the arithmetic on them is stated over it.
pub struct PitchModel {
    pub step: int,
    pub tone: int,
}

impl PitchModel {
    /// The octave in which the step lies.
    pub open spec fn octave(self) -> int {
        self.step / 7
    }

    /// The same pitch moved into octave 0: the step reduced modulo 7, and
    /// the tone lowered by twelve for each octave that the step gave up.
    pub open spec fn reduce(self) -> PitchModel {
        PitchModel { step: self.step % 7, tone: self.tone - 12 * (self.step / 7) }
    }

    /// The same pitch raised by `octave` octaves.
    pub open spec fn lift(self, octave: int) -> PitchModel {
        PitchModel { step: self.step + 7 * octave, tone: self.tone + 12 * octave }
    }

    pub open spec fn plus(self, rhs: PitchModel) -> PitchModel {
        PitchModel { step: self.step + rhs.step, tone: self.tone + rhs.tone }
    }

    pub open spec fn minus(self, rhs: PitchModel) -> PitchModel {
        PitchModel { step: self.step - rhs.step, tone: self.tone - rhs.tone }
    }

    pub open spec fn negated(self) -> PitchModel {
        PitchModel { step: -self.step, tone: -self.tone }
    }

    pub open spec fn times(self, n: int) -> PitchModel {
        PitchModel { step: self.step * n, tone: self.tone * n }
    }

    /// The semitone value of the pitch's step when unaltered.
    pub open spec fn natural_tone(self) -> int {
        OStep::of_int(self.step).natural_tone() + 12 * (self.step / 7)
    }

    /// The accidental: how far the tone lies above the natural tone of the
    /// step.
    pub open spec fn acci(self) -> int {
        self.tone - self.natural_tone()
    }

    /// The pitch as an `OPitch` holds it when the tone has overflowed: the
    /// tone wraps around as an `i8` does.
    pub open spec fn wrap_tone(self) -> PitchModel {
        PitchModel { step: self.step, tone: wrap_i8(self.tone) }
    }

    /// The pitch as a `Pitch` holds it when step or tone have overflowed:
    /// each wraps around as an `i8` does.
    pub open spec fn wrap(self) -> PitchModel {
        PitchModel { step: wrap_i8(self.step), tone: wrap_i8(self.tone) }
    }

    /// The pitch as an `OPitch` holds it: reduced to octave 0, with the
    /// tone wrapped around.
    pub open spec fn canon(self) -> PitchModel {
        self.reduce().wrap_tone()
    }

    /// Whether an `OPitch` can hold the pitch.
    pub open spec fn fits_opitch(self) -> bool {
        0 <= self.step < 7 && fits_i8(self.tone)
    }

    /// Whether a `Pitch` can hold the pitch.
    pub open spec fn fits_pitch(self) -> bool {
        fits_i8(self.step) && fits_i8(self.tone)
    }
}

/// A pitch within one octave: a note name and a semitone value. The tone is
/// not confined to `0..12`: B sharp has the tone 12 and C flat the tone -1.
#[derive(Clone, Copy, PartialEq, Eq, Debug, Hash, Structural)]
pub struct OPitch {
    pub step: OStep,
    pub tone: i8,
}

impl View for OPitch {
    type V = PitchModel;

    open spec fn view(&self) -> PitchModel {
        PitchModel { step: self.step@, tone: self.tone as int }
    }
}

impl OPitch {
    /// The pitch that stands for `m`, where `m` fits.
    pub open spec fn of_model(m: PitchModel) -> OPitch {
        OPitch { step: OStep::of_int(m.step), tone: m.tone as i8 }
    }

    /// The pitch reduced to octave 0. Like the operators, the conversion
    /// never fails: a tone that does not fit wraps around.
    pub open spec fn of_pitch(pitch: Pitch) -> OPitch {
        OPitch::of_model(pitch@.reduce().wrap_tone())
    }

    pub fn new(step: OStep, acci: Acci) -> (pitch: OPitch)
        requires
            fits_i8(step.natural_tone() + acci@),
        ensures
            pitch.step == step,
            pitch.tone == step.natural_tone() + acci@,
            pitch@.acci() == acci@,
    {
        let tone = step.diatonic_tone() + acci.0;
        OPitch { step, tone }
    }

    /// The unaltered pitch of a step.
    pub fn new_diatonic(step: OStep) -> (pitch: OPitch)
        ensures
            pitch.step == step,
            pitch.tone == step.natural_tone(),
    {
        OPitch { step, tone: step.diatonic_tone() }
    }

    pub fn from_step_and_tone(step: OStep, tone: i8) -> (pitch: OPitch)
        ensures
            pitch.step == step,
            pitch.tone == tone,
    {
        OPitch { step, tone }
    }

    /// The pitch reduced to octave 0.
    pub fn from_pitch(pitch: Pitch) -> (reduced: OPitch)
        ensures
            reduced == OPitch::of_pitch(pitch),
    {
        let (ostep, octave) = pitch.step.into_ostep_and_octave();
        let otone: i32 = pitch.tone as i32 - 12 * (octave as i32);
        proof {
            OStep::lemma_view_of_int(pitch@.step);
        }
        OPitch { step: ostep, tone: wrap_to_i8(otone) }
    }

    pub fn step(&self) -> (step: OStep)
        ensures
            step == self.step,
    {
        self.step
    }

    pub fn tone(&self) -> (tone: i8)
        ensures
            tone == self.tone,
    {
        self.tone
    }

    pub fn ostep(&self) -> (step: OStep)
        ensures
            step == self.step,
    {
        self.step
    }

    /// The octave of the step, which for a reduced pitch is 0.
    pub fn octave(&self) -> (octave: i8)
        ensures
            octave == 0,
            octave == self@.octave(),
    {
        0
    }

    /// The octave in which the tone lies: B sharp lies in octave 1.
    pub fn octave_by_tone(&self) -> (octave: i8)
        ensures
            octave == self.tone / 12,
    {
        div_mod_i8(self.tone, 12).0
    }

    pub fn otone(&self) -> (tone: i8)
        ensures
            tone == self.tone,
    {
        self.tone
    }

    pub fn acci(&self) -> (acci: Acci)
        requires
            fits_i8(self@.acci()),
        ensures
            acci@ == self@.acci(),
    {
        Acci(self.tone - self.step.diatonic_tone())
    }

    pub fn is_diatonic(&self) -> (diatonic: bool)
        ensures
            diatonic == (self@.acci() == 0),
    {
        self.tone == self.step.diatonic_tone()
    }

    /// Whether the two pitches sound alike: their tones differ by whole
    /// octaves.
    pub fn is_enharmonic(&self, other: &OPitch) -> (enharmonic: bool)
        ensures
            enharmonic == (self.tone % 12 == other.tone % 12),
    {
        eq_mod_i8(self.tone, other.tone, 12)
    }
}

impl vstd::std_specs::convert::FromSpecImpl<OStep> for OPitch {
    open spec fn obeys_from_spec() -> bool {
        true
    }

    open spec fn from_spec(value: OStep) -> OPitch {
        OPitch { step: value, tone: value.natural_tone() as i8 }
    }
}

impl From<OStep> for OPitch {
    fn from(value: OStep) -> (r: OPitch)
        ensures
            r == (OPitch { step: value, tone: value.natural_tone() as i8 }),
    {
        OPitch { step: value, tone: value.diatonic_tone() }
    }
}

impl vstd::std_specs::convert::FromSpecImpl<Pitch> for OPitch {
    open spec fn obeys_from_spec() -> bool {
        true
    }

    open spec fn from_spec(pitch: Pitch) -> OPitch {
        OPitch::of_pitch(pitch)
    }
}

impl From<Pitch> for OPitch {
    fn from(pitch: Pitch) -> (r: OPitch)
        ensures
            r == OPitch::of_pitch(pitch),
    {
        OPitch::from_pitch(pitch)
    }
}

/// A pitch with its octave: a step and a semitone value, both counted from
/// C of octave 0.
#[derive(Clone, Copy, PartialEq, Eq, PartialOrd, Ord, Debug, Hash, Structural)]
pub struct Pitch {
    pub step: Step,
    pub tone: i8,
}

impl View for Pitch {
    type V = PitchModel;

    open spec fn view(&self) -> PitchModel {
        PitchModel { step: self.step@, tone: self.tone as int }
    }
}

impl Pitch {
    /// The pitch that stands for `m`, where `m` fits.
    pub open spec fn of_model(m: PitchModel) -> Pitch {
        Pitch { step: Step(m.step as i8), tone: m.tone as i8 }
    }

    /// The reduced pitch as a pitch of octave 0.
    pub open spec fn of_opitch(opitch: OPitch) -> Pitch {
        Pitch { step: Step(opitch.step@ as i8), tone: opitch.tone }
    }

    pub fn from_step_and_tone(step: Step, tone: i8) -> (pitch: Pitch)
        ensures
            pitch.step == step,
            pitch.tone == tone,
    {
        Pitch { step, tone }
    }

    pub fn from_step_and_acci(step: Step, acci: Acci) -> (pitch: Pitch)
        requires
            fits_i8(step.natural_tone()),
            fits_i8(step.natural_tone() + acci@),
        ensures
            pitch.step == step,
            pitch.tone == step.natural_tone() + acci@,
            pitch@.acci() == acci@,
    {
        let tone = step.diatonic_tone() + acci.0;
        Pitch { step, tone }
    }

    pub fn from_opitch_and_octave(opitch: OPitch, octave: i8) -> (pitch: Pitch)
        requires
            opitch@.lift(octave as int).fits_pitch(),
        ensures
            pitch@ == opitch@.lift(octave as int),
    {
        let step: i16 = opitch.step.index() as i16 + 7 * (octave as i16);
        let tone: i16 = opitch.tone as i16 + 12 * (octave as i16);
        Pitch { step: Step(step as i8), tone: tone as i8 }
    }

    pub fn into_opitch_and_octave(self) -> (parts: (OPitch, i8))
        requires
            self@.reduce().fits_opitch(),
        ensures
            parts.0@ == self@.reduce(),
            parts.1 == self@.octave(),
    {
        let (ostep, octave) = self.step.into_ostep_and_octave();
        let otone: i16 = self.tone as i16 - 12 * (octave as i16);
        (OPitch { step: ostep, tone: otone as i8 }, octave)
    }

    pub fn step(&self) -> (step: Step)
        ensures
            step == self.step,
    {
        self.step
    }

    pub fn tone(&self) -> (tone: i8)
        ensures
            tone == self.tone,
    {
        self.tone
    }

    pub fn ostep(&self) -> (step: OStep)
        ensures
            step == OStep::of_int(self@.step),
    {
        OStep::from_number(self.step.0)
    }

    pub fn octave(&self) -> (octave: i8)
        ensures
            octave == self@.octave(),
    {
        self.step.octave()
    }

    /// The octave in which the tone lies, whatever the step.
    pub fn octave_by_tone(&self) -> (octave: i8)
        ensures
            octave == self.tone / 12,
    {
        div_mod_i8(self.tone, 12).0
    }

    /// The tone of the pitch once reduced to octave 0.
    pub fn otone(&self) -> (tone: i8)
        requires
            fits_i8(self@.reduce().tone),
        ensures
            tone == self@.reduce().tone,
    {
        let otone: i16 = self.tone as i16 - 12 * (self.octave() as i16);
        otone as i8
    }

    pub fn acci(&self) -> (acci: Acci)
        requires
            fits_i8(self@.natural_tone()),
            fits_i8(self@.acci()),
        ensures
            acci@ == self@.acci(),
    {
        Acci(self.tone - self.step.diatonic_tone())
    }

    pub fn is_diatonic(&self) -> (diatonic: bool)
        requires
            fits_i8(self@.natural_tone()),
        ensures
            diatonic == (self@.acci() == 0),
    {
        self.tone == self.step.diatonic_tone()
    }

    /// Whether the two pitches sound alike: their tones are equal.
    pub fn is_enharmonic(&self, other: &Pitch) -> (enharmonic: bool)
        ensures
            enharmonic == (self.tone == other.tone),
    {
        self.tone == other.tone
    }
}

impl vstd::std_specs::convert::FromSpecImpl<OPitch> for Pitch {
    open spec fn obeys_from_spec() -> bool {
        true
    }

    open spec fn from_spec(opitch: OPitch) -> Pitch {
        Pitch::of_opitch(opitch)
    }
}

impl From<OPitch> for Pitch {
    fn from(opitch: OPitch) -> (r: Pitch)
        ensures
            r == Pitch::of_opitch(opitch),
    {
        Pitch { step: Step(opitch.step.index() as i8), tone: opitch.tone }
    }
}

impl PitchNotation for OPitch {
    type Step = OStep;

    type OStep = OStep;

    type Acci = Acci;

    type OTone = i8;

    type Tone = i8;

    type Octave = i8;

    open spec fn has_otone(&self) -> bool {
        true
    }

    open spec fn has_acci(&self) -> bool {
        fits_i8(self@.acci())
    }

    open spec fn has_natural_tone(&self) -> bool {
        true
    }

    fn step(&self) -> (step: OStep)
        ensures
            step == self.step,
    {
        OPitch::step(self)
    }

    fn tone(&self) -> (tone: i8)
        ensures
            tone == self.tone,
    {
        OPitch::tone(self)
    }

    fn ostep(&self) -> (step: OStep)
        ensures
            step == self.step,
    {
        OPitch::ostep(self)
    }

    fn octave(&self) -> (octave: i8)
        ensures
            octave == 0,
    {
        OPitch::octave(self)
    }

    fn octave_by_tone(&self) -> (octave: i8)
        ensures
            octave == self.tone / 12,
    {
        OPitch::octave_by_tone(self)
    }

    fn otone(&self) -> (tone: i8)
        ensures
            tone == self.tone,
    {
        OPitch::otone(self)
    }

    fn acci(&self) -> (acci: Acci)
        ensures
            acci@ == self@.acci(),
    {
        OPitch::acci(self)
    }

    fn is_diatonic(&self) -> (diatonic: bool)
        ensures
            diatonic == (self@.acci() == 0),
    {
        OPitch::is_diatonic(self)
    }

    fn is_enharmonic(&self, other: &OPitch) -> (enharmonic: bool)
        ensures
            enharmonic == (self.tone % 12 == other.tone % 12),
    {
        OPitch::is_enharmonic(self, other)
    }
}

impl PitchNotation for Pitch {
    type Step = Step;

    type OStep = OStep;

    type Acci = Acci;

    type OTone = i8;

    type Tone = i8;

    type Octave = i8;

    open spec fn has_otone(&self) -> bool {
        fits_i8(self@.reduce().tone)
    }

    open spec fn has_acci(&self) -> bool {
        fits_i8(self@.acci())
    }

    open spec fn has_natural_tone(&self) -> bool {
        fits_i8(self@.natural_tone())
    }

    fn step(&self) -> (step: Step)
        ensures
            step == self.step,
    {
        Pitch::step(self)
    }

    fn tone(&self) -> (tone: i8)
        ensures
            tone == self.tone,
    {
        Pitch::tone(self)
    }

    fn ostep(&self) -> (step: OStep)
        ensures
            step == OStep::of_int(self@.step),
    {
        Pitch::ostep(self)
    }

    fn octave(&self) -> (octave: i8)
        ensures
            octave == self@.octave(),
    {
        Pitch::octave(self)
    }

    fn octave_by_tone(&self) -> (octave: i8)
        ensures
            octave == self.tone / 12,
    {
        Pitch::octave_by_tone(self)
    }

    fn otone(&self) -> (tone: i8)
        ensures
            tone == self@.reduce().tone,
    {
        Pitch::otone(self)
    }

    fn acci(&self) -> (acci: Acci)
        ensures
            acci@ == self@.acci(),
    {
        Pitch::acci(self)
    }

    fn is_diatonic(&self) -> (diatonic: bool)
        ensures
            diatonic == (self@.acci() == 0),
    {
        Pitch::is_diatonic(self)
    }

    fn is_enharmonic(&self, other: &Pitch) -> (enharmonic: bool)
        ensures
            enharmonic == (self.tone == other.tone),
    {
        Pitch::is_enharmonic(self, other)
    }
}

impl vstd::std_specs::convert::FromSpecImpl<OStep> for u8 {
    open spec fn obeys_from_spec() -> bool {
        true
    }

    open spec fn from_spec(value: OStep) -> u8 {
        value@ as u8
    }
}

impl From<OStep> for u8 {
    fn from(value: OStep) -> (r: u8)
        ensures
            r == value@ as u8,
    {
        value.index()
    }
}

} // verus!
