//! Laws of the algebra, proved over the models and specification functions
//! that the contracts of the executable functions are stated in.

use crate::num::{fits_i8, lemma_wrap_i8, wrap_i8};
use crate::pitch::edo12::base::{Acci, OPitch, OStep, Pitch, PitchModel, Step};
use crate::pitch::edo12::interval::{
    Interval, IntervalDeg, IntervalQual, OInterval, OIntervalDeg,
};
use crate::pitch::edo12::traits::{AcciByQual, Qual};
use crate::pitch::edo12::text::{all_digits, digits_start, index_of, is_digit, is_letter, letters_len};
use vstd::prelude::*;

verus! {

/// Reducing a pitch to one octave and lifting it back by its octave gives
/// the pitch again: whatever `into_opitch_and_octave` returns for a pitch,
/// `from_opitch_and_octave` makes that pitch of it.
pub proof fn law_pitch_reduction_round_trip(pitch: Pitch, reduced: OPitch, back: Pitch)
    requires
        reduced@ == pitch@.reduce(),
        back@ == reduced@.lift(pitch@.octave()),
    ensures
        back == pitch,
        reduced@.lift(pitch@.octave()).fits_pitch(),
{
}

/// A step is its note name raised by its octave: the parts that
/// `into_ostep_and_octave` returns determine the step.
pub proof fn law_step_reduction_round_trip(step: Step)
    ensures
        OStep::of_int(step@)@ + 7 * (step@ / 7) == step@,
        0 <= OStep::of_int(step@)@ < 7,
{
}

/// A degree is its degree within the octave widened by its octave:
/// whatever `into_odeg_and_octave` returns for a degree,
/// `from_odeg_and_octave` makes that degree of it.
pub proof fn law_degree_reduction_round_trip(deg: IntervalDeg, back: IntervalDeg)
    requires
        back@ == deg.odeg()@ + 7 * (deg@ / 7),
    ensures
        back == deg,
        fits_i8(deg.odeg()@ + 7 * (deg@ / 7)),
{
}

/// Every place of the circle of fifths holds a pitch whose place it is.
pub proof fn law_co5_round_trip(order: int)
    ensures
        PitchModel::at_co5_place(order).co5_place() == order,
        0 <= PitchModel::at_co5_place(order).step < 7,
{
    let r = order % 7;
    let k = order / 7;
    assert(order == 7 * k + r);
    if r == 0 {
    } else if r == 1 {
    } else if r == 2 {
    } else if r == 3 {
    } else if r == 4 {
    } else if r == 5 {
    } else {
    }
}

/// For every `i8`, the pitch that `from_co5_order` returns has a place
/// that fits, and `co5_order` returns the number again.
pub proof fn law_co5_round_trip_i8(order: i8, pitch: OPitch)
    requires
        pitch@ == PitchModel::at_co5_place(order as int),
    ensures
        fits_i8(pitch@.co5_place()),
        pitch@.co5_place() == order,
{
    law_co5_round_trip(order as int);
}

/// The perfect fifth generates the circle: G multiplied by `n` is the
/// pitch at place `n`.
pub proof fn law_fifth_generates_circle(n: int)
    ensures
        (PitchModel { step: 4, tone: 7 }).times(n).reduce() == PitchModel::at_co5_place(n),
{
    let r = n % 7;
    let k = n / 7;
    assert(n == 7 * k + r);
    if r == 0 {
    } else if r == 1 {
    } else if r == 2 {
    } else if r == 3 {
    } else if r == 4 {
    } else if r == 5 {
    } else {
    }
}

/// For every `i8`, the operator `*` on G returns what `from_co5_order`
/// returns.
pub proof fn law_fifth_generates_circle_i8(n: i8, placed: OPitch)
    requires
        placed@ == PitchModel::at_co5_place(n as int),
    ensures
        (OPitch { step: OStep::G, tone: 7 }).times(n) == placed,
{
    law_fifth_generates_circle(n as int);
    let g = OPitch { step: OStep::G, tone: 7 };
    assert(g@ == PitchModel { step: 4, tone: 7 });
    let m = PitchModel::at_co5_place(n as int);
    assert(-20 <= (n + 1) / 7 <= 19);
    assert(fits_i8(m.tone));
    assert(wrap_i8(m.tone) == m.tone);
}

/// A reduced pitch and its negation add up to C, whatever the pitch.
pub proof fn law_opitch_additive_inverse(pitch: OPitch)
    ensures
        pitch.plus(pitch.negated()) == (OPitch { step: OStep::C, tone: 0 }),
{
    let n = pitch.negated();
    assert(n@.step == (-pitch@.step) % 7);
    assert(n.tone == wrap_i8(-pitch.tone - 12 * ((-pitch@.step) / 7)));
}

/// A pitch and its negation add up to the pitch of step 0 and tone 0,
/// whatever the pitch.
pub proof fn law_pitch_additive_inverse(pitch: Pitch)
    ensures
        pitch.plus(pitch.negated()) == (Pitch { step: Step(0), tone: 0 }),
{
}

/// The accidental that `acci_by_qual` finds for a quality gives the step
/// that quality: for every step and every proper quality that suits the
/// step, as far as the accidental and the altered tone each fit an `i8`.
pub proof fn law_quality_accidental_inverse(step: OStep, qual: IntervalQual)
    requires
        qual.is_proper(),
        qual.suits_class(step.is_perfect_class()),
        fits_i8(qual.offset(step.is_perfect_class())->0),
        fits_i8(step.natural_tone() + qual.offset(step.is_perfect_class())->0),
    ensures
        step.acci_by_qual_spec(qual) is Some,
        step.acci_by_qual_spec(qual)->0@ == qual.offset(step.is_perfect_class())->0,
        (OPitch {
            step,
            tone: (step.natural_tone() + step.acci_by_qual_spec(qual)->0@) as i8,
        }).qual_spec() == qual,
{
}

/// Conversely, the quality of a pitch leads `acci_by_qual` back to the
/// accidental of the pitch, wherever an `Acci` can hold it.
pub proof fn law_accidental_quality_inverse(pitch: OPitch)
    requires
        fits_i8(pitch@.acci()),
    ensures
        pitch.qual_spec().is_proper(),
        pitch.qual_spec().suits_class(pitch.step.is_perfect_class()),
        pitch.step.acci_by_qual_spec(pitch.qual_spec()) == Some(Acci(pitch@.acci() as i8)),
{
}

/// Degrees and steps are numbered alike, so a quality suits a degree
/// exactly if it suits the class of the step that lies the degree above C.
pub proof fn law_degree_class(deg: OIntervalDeg, qual: IntervalQual)
    ensures
        qual.suits(deg) == qual.suits_class(deg.step().is_perfect_class()),
{
}

/// A step has an accidental for a quality exactly where the quality suits
/// the class of the step.
pub proof fn law_offset_iff_suits(qual: IntervalQual, perfect: bool)
    ensures
        qual.offset(perfect) is Some <==> qual.suits_class(perfect),
{
}

/// The name of a step ends where the letters end: `letters_len` is a
/// place within the text before which all characters are letters, and at
/// which none stands.
pub proof fn law_letters_len(s: Seq<char>)
    ensures
        0 <= letters_len(s) <= s.len(),
        forall|i: int| 0 <= i < letters_len(s) ==> is_letter(#[trigger] s[i]),
        letters_len(s) < s.len() ==> !is_letter(s[letters_len(s)]),
    decreases s.len(),
{
    if s.len() > 0 && is_letter(s[0]) {
        let rest = s.drop_first();
        law_letters_len(rest);
        assert forall|i: int| 0 <= i < letters_len(s) implies is_letter(#[trigger] s[i]) by {
            if i > 0 {
                assert(s[i] == rest[i - 1]);
            }
        }
    }
}

/// The octave begins behind the first underscore: `index_of` is a place
/// within the text before which the character does not stand, and at
/// which it does unless the place is the end.
pub proof fn law_index_of(s: Seq<char>, c: char)
    ensures
        0 <= index_of(s, c) <= s.len(),
        forall|i: int| 0 <= i < index_of(s, c) ==> (#[trigger] s[i]) != c,
        index_of(s, c) < s.len() ==> s[index_of(s, c)] == c,
    decreases s.len(),
{
    if s.len() > 0 && s[0] != c {
        let rest = s.drop_first();
        law_index_of(rest, c);
        assert forall|i: int| 0 <= i < index_of(s, c) implies (#[trigger] s[i]) != c by {
            if i > 0 {
                assert(s[i] == rest[i - 1]);
            }
        }
    }
}

/// The degree of an interval is the longest run of digits that its text
/// ends in: from `digits_start` on all characters are digits, and before
/// it stands none.
pub proof fn law_digits_start(s: Seq<char>)
    ensures
        0 <= digits_start(s) <= s.len(),
        all_digits(s.subrange(digits_start(s), s.len() as int)),
        digits_start(s) > 0 ==> !is_digit(s[digits_start(s) - 1]),
    decreases s.len(),
{
    if s.len() > 0 && is_digit(s.last()) {
        let front = s.drop_last();
        law_digits_start(front);
        let k = digits_start(s);
        assert forall|i: int| 0 <= i < s.len() - k implies is_digit(
            #[trigger] s.subrange(k, s.len() as int)[i],
        ) by {
            if i < front.len() - k {
                assert(front.subrange(k, front.len() as int)[i] == s[k + i]);
            }
        }
    }
}

/// Reducing and wrapping before an addition changes nothing once the sum
/// is reduced and wrapped: the reduced pitches add as the unreduced ones
/// do.
pub proof fn law_reduction_respects_addition(m: PitchModel, n: PitchModel)
    ensures
        m.canon().plus(n).canon() == m.plus(n).canon(),
        m.plus(n.canon()).canon() == m.plus(n).canon(),
{
    lemma_wrap_i8(m.tone - 12 * (m.step / 7), n.tone - 12 * ((m.step % 7 + n.step) / 7));
    lemma_wrap_i8(n.tone - 12 * (n.step / 7), m.tone - 12 * ((m.step + n.step % 7) / 7));
    assert((m.step % 7 + n.step) % 7 == (m.step + n.step) % 7);
    assert((m.step + n.step % 7) % 7 == (m.step + n.step) % 7);
    assert(m.step / 7 + (m.step % 7 + n.step) / 7 == (m.step + n.step) / 7);
    assert(n.step / 7 + (m.step + n.step % 7) / 7 == (m.step + n.step) / 7);
}

/// What an `OPitch` stands for is reduced and wrapped already.
pub proof fn law_opitch_is_canonical(p: OPitch)
    ensures
        p@.canon() == p@,
        OPitch::of_model(p@) == p,
        0 <= p@.step < 7,
        fits_i8(p@.tone),
{
    lemma_wrap_i8(p@.tone, 0);
}

/// C is the identity of the addition of reduced pitches, the addition
/// does not depend on the order of its operands, and subtracting is
/// adding the negation.
pub proof fn law_opitch_addition(p: OPitch, q: OPitch)
    ensures
        p.plus(OPitch { step: OStep::C, tone: 0 }) == p,
        p.plus(q) == q.plus(p),
        p.minus(q) == p.plus(q.negated()),
{
    law_opitch_is_canonical(p);
    law_opitch_is_canonical(q);
    assert(p@.plus(q@) == q@.plus(p@));
    let zero = OPitch { step: OStep::C, tone: 0 };
    assert(p@.plus(zero@) == p@);
    let n = q.negated();
    lemma_wrap_i8(-q@.tone - 12 * ((-q@.step) / 7), 0);
    assert(n@ == q@.negated().canon());
    law_reduction_respects_addition(p@, q@.negated());
    assert(p@.plus(q@.negated()) == p@.minus(q@));
}

/// The sum of two reduced pitches stands for the sum of what they stand
/// for, reduced and wrapped.
pub proof fn law_opitch_sum_model(p: OPitch, q: OPitch)
    ensures
        p.plus(q)@ == p@.plus(q@).canon(),
        p.plus(q) == OPitch::of_model(p@.plus(q@).canon()),
{
    lemma_wrap_i8(p@.tone + q@.tone - 12 * ((p@.step + q@.step) / 7), 0);
}

/// The addition of reduced pitches is associative.
pub proof fn law_opitch_addition_associates(p: OPitch, q: OPitch, r: OPitch)
    ensures
        p.plus(q).plus(r) == p.plus(q.plus(r)),
{
    let pq = p.plus(q);
    let qr = q.plus(r);
    law_opitch_sum_model(p, q);
    law_opitch_sum_model(q, r);
    law_opitch_sum_model(pq, r);
    law_opitch_sum_model(p, qr);
    law_reduction_respects_addition(p@.plus(q@), r@);
    law_reduction_respects_addition(p@, q@.plus(r@));
    let left = p@.plus(q@).plus(r@);
    let right = p@.plus(q@.plus(r@));
    assert(left.step == right.step && left.tone == right.tone);
    assert(pq@.plus(r@).canon() == left.canon());
    assert(p@.plus(qr@).canon() == right.canon());
}

/// Multiplying a reduced pitch by a number is adding it up that often.
pub proof fn law_opitch_multiples(p: OPitch, n: i8)
    requires
        n < i8::MAX,
    ensures
        p.times(0i8) == (OPitch { step: OStep::C, tone: 0 }),
        p.times(1i8) == p,
        p.times(-1i8) == p.negated(),
        p.times((n + 1) as i8) == p.times(n).plus(p),
{
    law_opitch_is_canonical(p);
    let m = p@.times(n as int);
    let next = p@.times(n + 1);
    assert(next == m.plus(p@)) by {
        assert(p@.step * (n + 1) == p@.step * n + p@.step) by (nonlinear_arith);
        assert(p@.tone * (n + 1) == p@.tone * n + p@.tone) by (nonlinear_arith);
    }
    lemma_wrap_i8(m.tone - 12 * (m.step / 7), 0);
    assert(p.times(n)@ == m.canon());
    law_opitch_sum_model(p.times(n), p);
    law_reduction_respects_addition(m, p@);
    assert(p@.times(1) == p@);
    assert(p@.times(-1) == p@.negated());
    assert(p@.times(0) == PitchModel { step: 0, tone: 0 });
}

/// Every reduced pitch is the pitch that lies the interval from C up to
/// it above C, and that interval is valid and proper.
pub proof fn law_pitch_interval_round_trip(pitch: OPitch)
    ensures
        OInterval::of_opitch(pitch)@.is_valid(),
        OInterval::of_opitch(pitch)@.qual.is_proper(),
        OPitch::of_ointerval(OInterval::of_opitch(pitch)) == pitch,
{
}

/// Every valid and proper reduced interval is the interval from C up to
/// the pitch that lies it above C, as far as the tone of that pitch fits
/// an `i8`.
pub proof fn law_interval_pitch_round_trip(interval: OInterval)
    requires
        interval@.is_valid(),
        interval@.qual.is_proper(),
        0 <= interval@.deg < 7,
        fits_i8(interval@.pitch().tone),
    ensures
        OInterval::of_opitch(OPitch::of_ointerval(interval)) == interval,
{
}

/// The inversion of a reduced interval, which negates degree and
/// quality, is the interval from C up to the negation of the pitch that
/// lies the interval above C: for every valid and proper interval, as far
/// as the tones of that pitch and of its negation fit an `i8`.
pub proof fn law_ointerval_negation(interval: OInterval)
    requires
        interval@.is_valid(),
        interval@.qual.is_proper(),
        0 <= interval@.deg < 7,
        fits_i8(interval@.pitch().tone),
        fits_i8(12 - interval@.pitch().tone),
    ensures
        interval.negated() == OInterval::of_opitch(OPitch::of_ointerval(interval).negated()),
{
    let p = OPitch::of_ointerval(interval);
    let d = interval@.deg;
    lemma_wrap_i8(interval@.pitch().tone, 0);
    lemma_wrap_i8(-interval@.pitch().tone, 0);
    lemma_wrap_i8(12 - interval@.pitch().tone, 0);
    assert(p@ == interval@.pitch());
    if d == 0 {
    } else if d == 1 {
    } else if d == 2 {
    } else if d == 3 {
    } else if d == 4 {
    } else if d == 5 {
    } else {
    }
}

/// The negation of an interval negates its degree and its quality: for
/// every valid and proper interval, as far as its degree, the tone of the
/// pitch that lies it above C of octave 0, the negations of both, and the
/// tone of the negated pitch once reduced to octave 0 each fit an `i8`.
pub proof fn law_interval_negation(interval: Interval)
    requires
        interval@.is_valid(),
        interval@.qual.is_proper(),
        fits_i8(interval@.deg),
        fits_i8(-interval@.deg),
        fits_i8(interval@.pitch().tone),
        fits_i8(-interval@.pitch().tone),
        fits_i8(interval@.pitch().negated().reduce().tone),
    ensures
        interval.negated() == Interval::of_parts(
            IntervalDeg((-interval@.deg) as i8),
            interval@.qual.negated(),
        ),
        interval.negated()@.pitch() == interval@.pitch().negated(),
        interval.negated()@.is_valid(),
        interval.negated()@.qual.is_proper(),
{
    let d = interval@.deg;
    let t = interval@.pitch().tone;
    let p = Pitch::of_interval(interval);
    lemma_wrap_i8(t, 0);
    lemma_wrap_i8(-t, 0);
    lemma_wrap_i8(d, 0);
    lemma_wrap_i8(-d, 0);
    assert(p@ == interval@.pitch());
    let n = p.negated();
    assert(n@ == PitchModel { step: -d, tone: -t });
    let r = d % 7;
    let k = d / 7;
    assert(d == 7 * k + r);
    let reduced = OPitch::of_pitch(n);
    lemma_wrap_i8(n@.reduce().tone, 0);
    if r == 0 {
        assert((-d) % 7 == 0 && (-d) / 7 == -k);
    } else if r == 1 {
        assert((-d) % 7 == 6 && (-d) / 7 == -k - 1);
    } else if r == 2 {
        assert((-d) % 7 == 5 && (-d) / 7 == -k - 1);
    } else if r == 3 {
        assert((-d) % 7 == 4 && (-d) / 7 == -k - 1);
    } else if r == 4 {
        assert((-d) % 7 == 3 && (-d) / 7 == -k - 1);
    } else if r == 5 {
        assert((-d) % 7 == 2 && (-d) / 7 == -k - 1);
    } else {
        assert((-d) % 7 == 1 && (-d) / 7 == -k - 1);
    }
}

} // verus!
