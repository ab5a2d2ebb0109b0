//! Laws of the notation: what `to_string` writes, `from_str` reads back.
//! They are proved over the specification functions that the contracts of
//! the two are stated in.

use crate::num::{fits_i8, lemma_wrap_i8};
use crate::pitch::edo12::base::{Acci, OPitch, OStep, Pitch, Step};
use crate::pitch::edo12::error::NotationError;
use crate::pitch::edo12::interval::{
    Interval, IntervalDeg, IntervalQual, OInterval, OIntervalDeg,
};
use crate::pitch::edo12::laws::law_interval_negation;
use crate::pitch::edo12::parsing::{
    acci_of, directed, interval_of, odeg_of, ointerval_of, opitch_of, ostep_of, pitch_of,
    qual_of, step_of, upward_interval_of,
};
use std::cmp::Ordering;
use crate::pitch::edo12::repr::{decimal_text, digit_char, number_text, repeated};
use crate::pitch::edo12::text::{
    all_digits, all_same, all_signs, ascii_lower, count, decimal, digit_value, digits_start,
    i8_of, index_of, is_digit, is_letter, letters_len,
};
use vstd::prelude::*;

verus! {

/// The digits that stand for a number stand for that number: they are
/// digits, at least one, and their value in base ten is the number.
pub proof fn law_decimal_round_trip(n: nat)
    ensures
        decimal_text(n).len() >= 1,
        all_digits(decimal_text(n)),
        decimal(decimal_text(n)) == n,
    decreases n,
{
    let text = decimal_text(n);
    if n < 10 {
        assert(text.drop_last() =~= Seq::<char>::empty());
        assert(text.last() == digit_char(n as int));
        assert(digit_value(digit_char(n as int)) == n);
        assert(decimal(text.drop_last()) == 0);
    } else {
        law_decimal_round_trip(n / 10);
        let front = decimal_text(n / 10);
        assert(text.drop_last() =~= front);
        assert(text.last() == digit_char((n % 10) as int));
        assert(digit_value(digit_char((n % 10) as int)) == n % 10);
        assert forall|i: int| 0 <= i < text.len() implies is_digit(#[trigger] text[i]) by {
            if i < front.len() {
                assert(text[i] == front[i]);
            }
        }
    }
}

/// A character written `n` times stands `n` times in the text, and no
/// other character stands in it.
pub proof fn law_repeated(c: char, n: nat, other: char)
    requires
        other != c,
    ensures
        repeated(c, n).len() == n,
        all_same(repeated(c, n), c),
        count(repeated(c, n), c) == n,
        count(repeated(c, n), other) == 0,
    decreases n,
{
    if n > 0 {
        law_repeated(c, (n - 1) as nat, other);
        assert(repeated(c, n).drop_last() =~= repeated(c, (n - 1) as nat));
    }
}

/// The name that is written for a step is read as that step.
pub proof fn law_ostep_round_trip(step: OStep)
    ensures
        ostep_of(step.text()) == Ok::<OStep, NotationError>(step),
{
    let small = ascii_lower(step.text());
    match step {
        OStep::C => {
            assert(small =~= seq!['c']);
        },
        OStep::D => {
            assert(small =~= seq!['d']);
        },
        OStep::E => {
            assert(small =~= seq!['e']);
        },
        OStep::F => {
            assert(small =~= seq!['f']);
        },
        OStep::G => {
            assert(small =~= seq!['g']);
        },
        OStep::A => {
            assert(small =~= seq!['a']);
        },
        OStep::B => {
            assert(small =~= seq!['b']);
        },
    }
    assert(seq!['c'].len() == 1 && seq!['d'].len() == 1 && seq!['e'].len() == 1);
    assert(seq!['f'].len() == 1 && seq!['g'].len() == 1 && seq!['a'].len() == 1);
    assert(seq!['b'].len() == 1);
    assert(seq!['c'][0] == 'c' && seq!['d'][0] == 'd' && seq!['e'][0] == 'e');
    assert(seq!['f'][0] == 'f' && seq!['g'][0] == 'g' && seq!['a'][0] == 'a');
    assert(seq!['b'][0] == 'b');
}

/// The text that is written for an accidental is read as that
/// accidental.
pub proof fn law_acci_round_trip(acci: Acci)
    ensures
        acci_of(acci.text()) == Ok::<Acci, NotationError>(acci),
        acci.text().len() >= 1,
        !is_letter(acci.text()[0]),
{
    let n = acci@;
    let text = acci.text();
    if n == 0 {
    } else if 1 <= n <= 3 {
        law_repeated('+', n as nat, '-');
        assert(text[0] == '+');
        assert(all_signs(text));
    } else if -3 <= n <= -1 {
        law_repeated('-', (-n) as nat, '+');
        assert(text[0] == '-');
        assert(all_signs(text));
    } else if n > 0 {
        let digits = decimal_text(n as nat);
        law_decimal_round_trip(n as nat);
        let inner = text.subrange(1, text.len() - 1);
        assert(text[0] == '[');
        assert(text.last() == ']');
        assert(inner =~= seq!['+'] + digits);
        assert(inner.drop_first() =~= digits);
        assert(inner[0] == '+');
    } else {
        let digits = decimal_text((-n) as nat);
        law_decimal_round_trip((-n) as nat);
        let inner = text.subrange(1, text.len() - 1);
        assert(text[0] == '[');
        assert(text.last() == ']');
        assert(inner =~= seq!['-'] + digits);
        assert(inner.drop_first() =~= digits);
        assert(inner[0] == '-');
    }
}

/// The text that is written for a proper quality is read as that
/// quality, and it ends in no digit.
pub proof fn law_qual_round_trip(qual: IntervalQual)
    requires
        qual.is_proper(),
    ensures
        qual_of(qual.text()) == Ok::<IntervalQual, NotationError>(qual),
        qual.text().len() >= 1,
        !is_digit(qual.text().last()),
{
    let text = qual.text();
    assert(seq!['P'].len() == 1 && seq!['M'].len() == 1 && seq!['m'].len() == 1);
    assert(seq!['P'][0] == 'P' && seq!['M'][0] == 'M' && seq!['m'][0] == 'm');
    match qual {
        IntervalQual::Perfect => {},
        IntervalQual::Major => {},
        IntervalQual::Minor => {},
        IntervalQual::Augmented(n) => {
            if n <= 3 {
                law_repeated('A', n as nat, 'd');
                assert(text[0] == 'A');
                assert(text.last() == 'A');
            } else {
                let digits = decimal_text(n as nat);
                law_decimal_round_trip(n as nat);
                assert(text[0] == '[' && text[1] == 'A' && text[2] == '*');
                assert(text.last() == ']');
                assert(text.subrange(3, text.len() - 1) =~= digits);
                assert(is_digit(digits[0]));
            }
        },
        IntervalQual::Diminished(n) => {
            if n <= 3 {
                law_repeated('d', n as nat, 'A');
                assert(text[0] == 'd');
                assert(text.last() == 'd');
                assert(!all_same(text, 'A'));
            } else {
                let digits = decimal_text(n as nat);
                law_decimal_round_trip(n as nat);
                assert(text[0] == '[' && text[1] == 'd' && text[2] == '*');
                assert(text.last() == ']');
                assert(text.subrange(3, text.len() - 1) =~= digits);
                assert(is_digit(digits[0]));
            }
        },
    }
}

/// The text that is written for a reduced pitch is read as that pitch,
/// wherever an `Acci` can hold its accidental.
pub proof fn law_opitch_round_trip(pitch: OPitch)
    requires
        fits_i8(pitch@.acci()),
    ensures
        opitch_of(pitch.text()) == Ok::<OPitch, NotationError>(pitch),
{
    let text = pitch.text();
    let name = pitch.step.text();
    let acci = Acci(pitch@.acci() as i8);
    law_ostep_round_trip(pitch.step);
    law_acci_round_trip(acci);
    assert(name.len() == 1 && is_letter(name[0]));
    if pitch@.acci() == 0 {
        assert(text.drop_first() =~= Seq::<char>::empty());
        assert(letters_len(text.drop_first()) == 0);
        assert(letters_len(text) == 1);
        assert(text.subrange(0, 1) =~= name);
        assert(text.subrange(1, text.len() as int) =~= Seq::<char>::empty());
    } else {
        let rest = acci.text();
        assert(text.drop_first() =~= rest);
        assert(letters_len(rest) == 0);
        assert(letters_len(text) == 1);
        assert(text.subrange(0, 1) =~= name);
        assert(text.subrange(1, text.len() as int) =~= rest);
    }
}

/// The text that is written for a degree within the octave is read as
/// that degree.
pub proof fn law_odeg_round_trip(deg: OIntervalDeg)
    ensures
        odeg_of(deg.text()) == Ok::<OIntervalDeg, NotationError>(deg),
        deg.text().len() == 1,
        is_digit(deg.text()[0]),
{
    law_decimal_round_trip((deg@ + 1) as nat);
}

/// The text that is written for a reduced interval is read as that
/// interval, where the interval is valid and proper.
pub proof fn law_ointerval_round_trip(interval: OInterval)
    requires
        interval@.is_valid(),
        interval@.qual.is_proper(),
        0 <= interval@.deg < 7,
    ensures
        ointerval_of(interval.text()) == Ok::<OInterval, NotationError>(interval),
{
    let text = interval.text();
    let qual = interval@.qual.text();
    let deg = OIntervalDeg::of_int(interval@.deg);
    let digit = deg.text();
    law_qual_round_trip(interval@.qual);
    law_odeg_round_trip(deg);
    assert(text =~= qual + digit);
    assert(text.drop_last() =~= qual);
    assert(text.last() == digit[0]);
    assert(digits_start(qual) == qual.len());
    assert(digits_start(text) == qual.len());
    assert(text.subrange(0, qual.len() as int) =~= qual);
    assert(text.subrange(qual.len() as int, text.len() as int) =~= digit);
}

/// Whether the text holds no underscore.
pub open spec fn is_plain(s: Seq<char>) -> bool {
    forall|i: int| 0 <= i < s.len() ==> (#[trigger] s[i]) != '_'
}

/// In a text that holds no underscore, and behind which an underscore
/// and more text follow, the first underscore stands behind that text.
pub proof fn law_first_underscore(head: Seq<char>, tail: Seq<char>)
    requires
        is_plain(head),
    ensures
        index_of(head, '_') == head.len(),
        index_of(head + seq!['_'] + tail, '_') == head.len(),
    decreases head.len(),
{
    let text = head + seq!['_'] + tail;
    if head.len() == 0 {
        assert(text[0] == '_');
    } else {
        let rest = head.drop_first();
        assert forall|i: int| 0 <= i < rest.len() implies (#[trigger] rest[i]) != '_' by {
            assert(rest[i] == head[i + 1]);
        }
        law_first_underscore(rest, tail);
        assert(head[0] != '_');
        assert(text[0] == head[0]);
        assert(text.drop_first() =~= rest + seq!['_'] + tail);
    }
}

/// The digits of a number hold no underscore.
proof fn lemma_decimal_plain(n: nat)
    ensures
        is_plain(decimal_text(n)),
{
    law_decimal_round_trip(n);
    let text = decimal_text(n);
    assert forall|i: int| 0 <= i < text.len() implies (#[trigger] text[i]) != '_' by {
        assert(is_digit(text[i]));
    }
}

/// The text that is written for a number that fits an `i8` is read as
/// that number, and holds no underscore.
pub proof fn law_number_round_trip(n: i8)
    ensures
        i8_of(number_text(n as int)) == Ok::<i8, NotationError>(n),
        is_plain(number_text(n as int)),
{
    let text = number_text(n as int);
    if n < 0 {
        let digits = decimal_text((-n) as nat);
        law_decimal_round_trip((-n) as nat);
        lemma_decimal_plain((-n) as nat);
        assert(text.drop_first() =~= digits);
        assert(text[0] == '-');
        assert forall|i: int| 0 <= i < text.len() implies (#[trigger] text[i]) != '_' by {
            if i > 0 {
                assert(text[i] == digits[i - 1]);
            }
        }
    } else {
        law_decimal_round_trip(n as nat);
        lemma_decimal_plain(n as nat);
    }
}

/// The text that is written for an accidental holds no underscore.
proof fn lemma_acci_text_plain(acci: Acci)
    ensures
        is_plain(acci.text()),
{
    let n = acci@;
    let text = acci.text();
    if -3 <= n <= 3 {
    } else if n > 0 {
        let digits = decimal_text(n as nat);
        lemma_decimal_plain(n as nat);
        assert forall|i: int| 0 <= i < text.len() implies (#[trigger] text[i]) != '_' by {
            if 2 <= i < 2 + digits.len() {
                assert(text[i] == digits[i - 2]);
            }
        }
    } else {
        let digits = decimal_text((-n) as nat);
        lemma_decimal_plain((-n) as nat);
        assert forall|i: int| 0 <= i < text.len() implies (#[trigger] text[i]) != '_' by {
            if 2 <= i < 2 + digits.len() {
                assert(text[i] == digits[i - 2]);
            }
        }
    }
}

/// The text that is written for a reduced pitch holds no underscore.
proof fn lemma_opitch_text_plain(pitch: OPitch)
    ensures
        is_plain(pitch.text()),
{
    let name = pitch.step.text();
    let text = pitch.text();
    assert(name.len() == 1 && name[0] != '_');
    if pitch@.acci() != 0 {
        let acci = Acci(pitch@.acci() as i8).text();
        lemma_acci_text_plain(Acci(pitch@.acci() as i8));
        assert forall|i: int| 0 <= i < text.len() implies (#[trigger] text[i]) != '_' by {
            if i >= 1 {
                assert(text[i] == acci[i - 1]);
            }
        }
    }
}

/// The text that is written for a step is read as that step.
pub proof fn law_step_round_trip(step: Step)
    ensures
        step_of(step.text()) == Ok::<Step, NotationError>(step),
{
    let ostep = OStep::of_int(step@);
    let name = ostep.text();
    let octave = (step@ / 7) as i8;
    let number = number_text(octave as int);
    let text = step.text();
    law_ostep_round_trip(ostep);
    law_number_round_trip(octave);
    assert(name.len() == 1 && name[0] != '_');
    law_first_underscore(name, number);
    assert(text.subrange(0, 1) =~= name);
    assert(text.subrange(2, text.len() as int) =~= number);
}

/// The text that is written for a pitch is read as that pitch, wherever
/// an `OPitch` can hold the pitch reduced to octave 0 and an `Acci` its
/// accidental.
pub proof fn law_pitch_round_trip(pitch: Pitch)
    requires
        fits_i8(pitch@.reduce().tone),
        fits_i8(pitch@.acci()),
    ensures
        pitch_of(pitch.text()) == Ok::<Pitch, NotationError>(pitch),
{
    let reduced = OPitch::of_pitch(pitch);
    let head = reduced.text();
    let octave = (pitch@.step / 7) as i8;
    let number = number_text(octave as int);
    let text = pitch.text();
    lemma_wrap_i8(pitch@.reduce().tone, 0);
    assert(reduced@ == pitch@.reduce());
    assert(reduced@.acci() == pitch@.acci());
    law_opitch_round_trip(reduced);
    law_number_round_trip(octave);
    lemma_opitch_text_plain(reduced);
    law_first_underscore(head, number);
    assert(text.subrange(0, head.len() as int) =~= head);
    assert(text.subrange(head.len() as int + 1, text.len() as int) =~= number);
    assert(reduced@.lift(octave as int) == pitch@);
}

/// Where digits follow a text that ends in no digit, the digits at the
/// end of both together begin where the text ends.
proof fn lemma_digits_start_concat(head: Seq<char>, digits: Seq<char>)
    requires
        head.len() > 0,
        !is_digit(head.last()),
        all_digits(digits),
    ensures
        digits_start(head + digits) == head.len(),
    decreases digits.len(),
{
    let text = head + digits;
    if digits.len() == 0 {
        assert(text =~= head);
    } else {
        let front = digits.drop_last();
        assert(text.last() == digits.last());
        assert(is_digit(digits.last()));
        assert(text.drop_last() =~= head + front);
        assert forall|i: int| 0 <= i < front.len() implies is_digit(#[trigger] front[i]) by {
            assert(front[i] == digits[i]);
        }
        lemma_digits_start_concat(head, front);
    }
}

/// The text that is written for a proper quality holds no underscore,
/// begins with no sign and ends in none.
proof fn lemma_qual_text_plain(qual: IntervalQual)
    requires
        qual.is_proper(),
    ensures
        is_plain(qual.text()),
        qual.text().len() >= 1,
        qual.text()[0] != '+' && qual.text()[0] != '-',
        qual.text().last() != '+' && qual.text().last() != '-',
{
    let text = qual.text();
    match qual {
        IntervalQual::Augmented(n) => {
            if n > 3 {
                let digits = decimal_text(n as nat);
                lemma_decimal_plain(n as nat);
                assert forall|i: int| 0 <= i < text.len() implies (#[trigger] text[i])
                    != '_' by {
                    if 3 <= i < 3 + digits.len() {
                        assert(text[i] == digits[i - 3]);
                    }
                }
                assert(text[0] == '[');
                assert(text.last() == ']');
            }
        },
        IntervalQual::Diminished(n) => {
            if n > 3 {
                let digits = decimal_text(n as nat);
                lemma_decimal_plain(n as nat);
                assert forall|i: int| 0 <= i < text.len() implies (#[trigger] text[i])
                    != '_' by {
                    if 3 <= i < 3 + digits.len() {
                        assert(text[i] == digits[i - 3]);
                    }
                }
                assert(text[0] == '[');
                assert(text.last() == ']');
            }
        },
        _ => {},
    }
}

/// The text that is written for an interval that points upwards is read
/// as that interval, pointing upwards.
proof fn lemma_upward_round_trip(interval: Interval)
    requires
        interval@.is_valid(),
        interval@.qual.is_proper(),
        0 <= interval@.deg <= 127,
    ensures
        upward_interval_of(interval.upward_text()) == Ok::<(Interval, bool), NotationError>(
            (interval, true),
        ),
        is_plain(interval.upward_text()),
        interval.upward_text().len() >= 1,
        interval.upward_text()[0] != '+' && interval.upward_text()[0] != '-',
{
    let text = interval.upward_text();
    let qual = interval@.qual.text();
    let number = (interval@.deg + 1) as nat;
    let digits = decimal_text(number);
    law_qual_round_trip(interval@.qual);
    lemma_qual_text_plain(interval@.qual);
    law_decimal_round_trip(number);
    lemma_decimal_plain(number);
    assert(text =~= qual + digits);
    lemma_digits_start_concat(qual, digits);
    assert(text.subrange(0, qual.len() as int) =~= qual);
    assert(text.subrange(qual.len() as int, text.len() as int) =~= digits);
    assert(text[0] == qual[0]);
    assert(is_digit(digits[0]));
    assert forall|i: int| 0 <= i < text.len() implies (#[trigger] text[i]) != '_' by {
        if i < qual.len() {
            assert(text[i] == qual[i]);
        } else {
            assert(text[i] == digits[i - qual.len()]);
        }
    }
}

/// The text that is written for an interval is read as that interval:
/// for every valid and proper interval, as far as its degree, the tone of
/// the pitch that lies it above C of octave 0, the negations of both,
/// and the tones of that pitch and of its negation once reduced to
/// octave 0 each fit an `i8`.
pub proof fn law_interval_round_trip(interval: Interval)
    requires
        interval@.is_valid(),
        interval@.qual.is_proper(),
        fits_i8(interval@.deg),
        fits_i8(-interval@.deg),
        fits_i8(interval@.pitch().tone),
        fits_i8(-interval@.pitch().tone),
        fits_i8(interval@.pitch().reduce().tone),
        fits_i8(interval@.pitch().negated().reduce().tone),
    ensures
        interval_of(interval.text()) == Ok::<Interval, NotationError>(interval),
{
    let text = interval.text();
    if interval.sign_spec() == Ordering::Less {
        law_interval_negation(interval);
        let mirror = interval.negated();
        assert(interval.abs_spec() == mirror) by {
            lemma_wrap_i8(interval@.pitch().tone, 0);
            lemma_wrap_i8(-interval@.pitch().tone, 0);
            lemma_wrap_i8(-interval@.deg, 0);
        }
        lemma_upward_round_trip(mirror);
        let rest = mirror.upward_text();
        assert(text =~= seq!['-'] + rest);
        assert(text.drop_first() =~= rest);
        assert(text[0] == '-');
        law_interval_negation(mirror);
        assert(mirror.negated() == interval);
        assert(directed(mirror, false) == interval);
    } else {
        lemma_upward_round_trip(interval);
        law_first_underscore(text, Seq::<char>::empty());
    }
}

} // verus!
