//! Reading the textual notation.
//!
//! For each type a specification function says what every text stands for,
//! a value or an error, and `from_str` is proved to
//! return exactly that.

use crate::num::fits_i8;
use crate::pitch::edo12::base::{Acci, OPitch, OStep, Pitch, Step};
use crate::pitch::edo12::error::NotationError;
use crate::pitch::edo12::interval::{
    Interval, IntervalDeg, IntervalQual, OInterval, OIntervalDeg,
};
use crate::pitch::edo12::text::{
    all_same, all_signs, ascii_lower, chars_of, count, digits_start, drop_back, eq_uncased,
    find_char, i8_of, index_of, leading_letters, letters_len, parse_i8,
    parse_u8, trailing_digits, u8_of,
};
use std::ops::Neg;
use vstd::prelude::*;
use vstd::string::*;

verus! {

/// The step that a name stands for: a letter from A to G, or a syllable
/// of solmisation, in capital or small letters.
pub open spec fn step_named(name: Seq<char>) -> Option<OStep> {
    let small = ascii_lower(name);
    if small == seq!['c'] || small == seq!['d', 'o'] || small == seq!['u', 't'] {
        Some(OStep::C)
    } else if small == seq!['d'] || small == seq!['r', 'e'] {
        Some(OStep::D)
    } else if small == seq!['e'] || small == seq!['m', 'i'] {
        Some(OStep::E)
    } else if small == seq!['f'] || small == seq!['f', 'a'] {
        Some(OStep::F)
    } else if small == seq!['g'] || small == seq!['s', 'o', 'l'] {
        Some(OStep::G)
    } else if small == seq!['a'] || small == seq!['l', 'a'] {
        Some(OStep::A)
    } else if small == seq!['b'] || small == seq!['s', 'i'] || small == seq!['t', 'i'] {
        Some(OStep::B)
    } else {
        None
    }
}

/// What a text stands for as a step within the octave.
pub open spec fn ostep_of(s: Seq<char>) -> Result<OStep, NotationError> {
    match step_named(s) {
        Some(step) => Ok(step),
        None => Err(NotationError::UnknownStepName),
    }
}

/// What a text stands for as a step: the name of a step, and behind an
/// underscore the octave; without it the octave is 0.
pub open spec fn step_of(s: Seq<char>) -> Result<Step, NotationError> {
    let k = index_of(s, '_');
    match ostep_of(s.subrange(0, k)) {
        Err(e) => Err(e),
        Ok(ostep) => if k == s.len() {
            Ok(Step(ostep@ as i8))
        } else {
            match i8_of(s.subrange(k + 1, s.len() as int)) {
                Err(e) => Err(e),
                Ok(octave) => if fits_i8(ostep@ + 7 * octave) {
                    Ok(Step((ostep@ + 7 * octave) as i8))
                } else {
                    Err(NotationError::IntegerOverflow)
                },
            }
        },
    }
}

/// What a text stands for as an accidental: nothing for the natural, a
/// run of plus signs for sharps and of minus signs for flats, or a number
/// of semitones in square brackets.
pub open spec fn acci_of(s: Seq<char>) -> Result<Acci, NotationError> {
    if s.len() == 0 {
        Ok(Acci(0))
    } else if s[0] == '[' {
        if s.last() != ']' {
            Err(NotationError::UnclosedBracket)
        } else if s.len() == 2 {
            Ok(Acci(0))
        } else {
            match i8_of(s.subrange(1, s.len() - 1)) {
                Ok(v) => Ok(Acci(v)),
                Err(e) => Err(e),
            }
        }
    } else if !all_signs(s) {
        Err(NotationError::InvalidCharacter)
    } else if fits_i8(count(s, '+') - count(s, '-')) {
        Ok(Acci((count(s, '+') - count(s, '-')) as i8))
    } else {
        Err(NotationError::IntegerOverflow)
    }
}

/// What a text stands for as a pitch within the octave: the name of a
/// step, which ends where the letters end, and an accidental.
pub open spec fn opitch_of(s: Seq<char>) -> Result<OPitch, NotationError> {
    let k = letters_len(s);
    match ostep_of(s.subrange(0, k)) {
        Err(e) => Err(e),
        Ok(step) => match acci_of(s.subrange(k, s.len() as int)) {
            Err(e) => Err(e),
            Ok(acci) => if fits_i8(step.natural_tone() + acci@) {
                Ok(OPitch { step, tone: (step.natural_tone() + acci@) as i8 })
            } else {
                Err(NotationError::IntegerOverflow)
            },
        },
    }
}

/// What a text stands for as a pitch: a pitch within the octave, and
/// behind an underscore the octave; without it the octave is 0.
pub open spec fn pitch_of(s: Seq<char>) -> Result<Pitch, NotationError> {
    let k = index_of(s, '_');
    match opitch_of(s.subrange(0, k)) {
        Err(e) => Err(e),
        Ok(opitch) => if k == s.len() {
            Ok(Pitch::of_opitch(opitch))
        } else {
            match i8_of(s.subrange(k + 1, s.len() as int)) {
                Err(e) => Err(e),
                Ok(octave) => if opitch@.lift(octave as int).fits_pitch() {
                    Ok(Pitch::of_model(opitch@.lift(octave as int)))
                } else {
                    Err(NotationError::IntegerOverflow)
                },
            }
        },
    }
}

/// The small letters of the names of the steps.
proof fn lemma_step_names()
    ensures
        ascii_lower("c"@) == seq!['c'],
        ascii_lower("do"@) == seq!['d', 'o'],
        ascii_lower("ut"@) == seq!['u', 't'],
        ascii_lower("d"@) == seq!['d'],
        ascii_lower("re"@) == seq!['r', 'e'],
        ascii_lower("e"@) == seq!['e'],
        ascii_lower("mi"@) == seq!['m', 'i'],
        ascii_lower("f"@) == seq!['f'],
        ascii_lower("fa"@) == seq!['f', 'a'],
        ascii_lower("g"@) == seq!['g'],
        ascii_lower("sol"@) == seq!['s', 'o', 'l'],
        ascii_lower("a"@) == seq!['a'],
        ascii_lower("la"@) == seq!['l', 'a'],
        ascii_lower("b"@) == seq!['b'],
        ascii_lower("si"@) == seq!['s', 'i'],
        ascii_lower("ti"@) == seq!['t', 'i'],
{
    reveal_strlit("c");
    reveal_strlit("do");
    reveal_strlit("ut");
    reveal_strlit("d");
    reveal_strlit("re");
    reveal_strlit("e");
    reveal_strlit("mi");
    reveal_strlit("f");
    reveal_strlit("fa");
    reveal_strlit("g");
    reveal_strlit("sol");
    reveal_strlit("a");
    reveal_strlit("la");
    reveal_strlit("b");
    reveal_strlit("si");
    reveal_strlit("ti");
    assert(ascii_lower("c"@) =~= seq!['c']);
    assert(ascii_lower("do"@) =~= seq!['d', 'o']);
    assert(ascii_lower("ut"@) =~= seq!['u', 't']);
    assert(ascii_lower("d"@) =~= seq!['d']);
    assert(ascii_lower("re"@) =~= seq!['r', 'e']);
    assert(ascii_lower("e"@) =~= seq!['e']);
    assert(ascii_lower("mi"@) =~= seq!['m', 'i']);
    assert(ascii_lower("f"@) =~= seq!['f']);
    assert(ascii_lower("fa"@) =~= seq!['f', 'a']);
    assert(ascii_lower("g"@) =~= seq!['g']);
    assert(ascii_lower("sol"@) =~= seq!['s', 'o', 'l']);
    assert(ascii_lower("a"@) =~= seq!['a']);
    assert(ascii_lower("la"@) =~= seq!['l', 'a']);
    assert(ascii_lower("b"@) =~= seq!['b']);
    assert(ascii_lower("si"@) =~= seq!['s', 'i']);
    assert(ascii_lower("ti"@) =~= seq!['t', 'i']);
}

impl OStep {
    /// Reads the name of a step.
    pub fn from_str(s: &str) -> (r: Result<OStep, NotationError>)
        ensures
            r == ostep_of(s@),
    {
        proof {
            lemma_step_names();
        }
        if eq_uncased(s, "c") || eq_uncased(s, "do") || eq_uncased(s, "ut") {
            Ok(OStep::C)
        } else if eq_uncased(s, "d") || eq_uncased(s, "re") {
            Ok(OStep::D)
        } else if eq_uncased(s, "e") || eq_uncased(s, "mi") {
            Ok(OStep::E)
        } else if eq_uncased(s, "f") || eq_uncased(s, "fa") {
            Ok(OStep::F)
        } else if eq_uncased(s, "g") || eq_uncased(s, "sol") {
            Ok(OStep::G)
        } else if eq_uncased(s, "a") || eq_uncased(s, "la") {
            Ok(OStep::A)
        } else if eq_uncased(s, "b") || eq_uncased(s, "si") || eq_uncased(s, "ti") {
            Ok(OStep::B)
        } else {
            Err(NotationError::UnknownStepName)
        }
    }
}

impl Step {
    /// Reads a step with or without its octave.
    pub fn from_str(s: &str) -> (r: Result<Step, NotationError>)
        ensures
            r == step_of(s@),
    {
        let chars = chars_of(s);
        let n = chars.len();
        let k = find_char(&chars, '_');
        let ostep = match OStep::from_str(s.substring_char(0, k)) {
            Ok(ostep) => ostep,
            Err(e) => { return Err(e); },
        };
        if k == n {
            return Ok(Step(ostep.index() as i8));
        }
        let octave = match parse_i8(s.substring_char(k + 1, n)) {
            Ok(octave) => octave,
            Err(e) => { return Err(e); },
        };
        let step: i16 = ostep.index() as i16 + 7 * (octave as i16);
        if step < -128 || step > 127 {
            Err(NotationError::IntegerOverflow)
        } else {
            Ok(Step(step as i8))
        }
    }
}

impl Acci {
    /// Reads an accidental.
    pub fn from_str(s: &str) -> (r: Result<Acci, NotationError>)
        ensures
            r == acci_of(s@),
    {
        let chars = chars_of(s);
        let n = chars.len();
        if n == 0 {
            return Ok(Acci(0));
        }
        if chars[0] == '[' {
            if chars[n - 1] != ']' {
                return Err(NotationError::UnclosedBracket);
            }
            if n == 2 {
                return Ok(Acci(0));
            }
            return match parse_i8(s.substring_char(1, n - 1)) {
                Ok(v) => Ok(Acci(v)),
                Err(e) => Err(e),
            };
        }
        let mut sharps: usize = 0;
        let mut flats: usize = 0;
        let mut i: usize = 0;
        while i < n
            invariant
                i <= n,
                n == chars.len(),
                chars@ == s@,
                n > 0,
                chars@[0] != '[',
                all_signs(chars@.subrange(0, i as int)),
                sharps == count(chars@.subrange(0, i as int), '+'),
                flats == count(chars@.subrange(0, i as int), '-'),
                sharps + flats == i,
            decreases n - i,
        {
            let c = chars[i];
            proof {
                let before = chars@.subrange(0, i as int);
                let after = chars@.subrange(0, i + 1);
                assert(after.drop_last() == before);
                assert(after.last() == c);
                assert forall|j: int| 0 <= j < after.len() && (c == '+' || c == '-') implies (
                #[trigger] after[j]) == '+' || after[j] == '-' by {
                    if j < before.len() {
                        assert(after[j] == before[j]);
                    }
                }
            }
            if c == '+' {
                sharps += 1;
            } else if c == '-' {
                flats += 1;
            } else {
                assert(s@[i as int] == c);
                return Err(NotationError::InvalidCharacter);
            }
            i += 1;
        }
        proof {
            assert(chars@.subrange(0, n as int) == s@);
        }
        if sharps >= flats {
            if sharps - flats > 127 {
                Err(NotationError::IntegerOverflow)
            } else {
                Ok(Acci((sharps - flats) as i8))
            }
        } else {
            if flats - sharps > 128 {
                Err(NotationError::IntegerOverflow)
            } else {
                Ok(Acci((-((flats - sharps) as i16)) as i8))
            }
        }
    }
}

impl OPitch {
    /// Reads a pitch within the octave.
    pub fn from_str(s: &str) -> (r: Result<OPitch, NotationError>)
        ensures
            r == opitch_of(s@),
    {
        let chars = chars_of(s);
        let n = chars.len();
        let k = leading_letters(&chars);
        let step = match OStep::from_str(s.substring_char(0, k)) {
            Ok(step) => step,
            Err(e) => { return Err(e); },
        };
        let acci = match Acci::from_str(s.substring_char(k, n)) {
            Ok(acci) => acci,
            Err(e) => { return Err(e); },
        };
        let tone: i16 = step.diatonic_tone() as i16 + acci.0 as i16;
        if tone < -128 || tone > 127 {
            Err(NotationError::IntegerOverflow)
        } else {
            Ok(OPitch::new(step, acci))
        }
    }
}

impl Pitch {
    /// Reads a pitch with or without its octave.
    pub fn from_str(s: &str) -> (r: Result<Pitch, NotationError>)
        ensures
            r == pitch_of(s@),
    {
        let chars = chars_of(s);
        let n = chars.len();
        let k = find_char(&chars, '_');
        let opitch = match OPitch::from_str(s.substring_char(0, k)) {
            Ok(opitch) => opitch,
            Err(e) => { return Err(e); },
        };
        if k == n {
            return Ok(Pitch::from(opitch));
        }
        let octave = match parse_i8(s.substring_char(k + 1, n)) {
            Ok(octave) => octave,
            Err(e) => { return Err(e); },
        };
        let step: i16 = opitch.step.index() as i16 + 7 * (octave as i16);
        let tone: i16 = opitch.tone as i16 + 12 * (octave as i16);
        if step < -128 || step > 127 || tone < -128 || tone > 127 {
            Err(NotationError::IntegerOverflow)
        } else {
            Ok(Pitch::from_opitch_and_octave(opitch, octave))
        }
    }
}

/// What a text stands for as a degree within the octave: a number from 1
/// for the unison to 7 for the seventh.
pub open spec fn odeg_of(s: Seq<char>) -> Result<OIntervalDeg, NotationError> {
    match u8_of(s) {
        Ok(n) => if 1 <= n <= 7 {
            Ok(OIntervalDeg::of_int(n - 1))
        } else {
            Err(NotationError::InvalidDegree)
        },
        Err(_) => Err(NotationError::InvalidDegree),
    }
}

/// What a text stands for as a degree: a number from 1 on, or a degree
/// within the octave and behind an underscore the number of octaves.
pub open spec fn deg_of(s: Seq<char>) -> Result<IntervalDeg, NotationError> {
    let k = index_of(s, '_');
    if k == s.len() {
        match u8_of(s) {
            Ok(n) => if 1 <= n <= 128 {
                Ok(IntervalDeg((n - 1) as i8))
            } else {
                Err(NotationError::InvalidDegree)
            },
            Err(_) => Err(NotationError::InvalidDegree),
        }
    } else {
        match odeg_of(s.subrange(0, k)) {
            Err(e) => Err(e),
            Ok(odeg) => match i8_of(s.subrange(k + 1, s.len() as int)) {
                Err(e) => Err(e),
                Ok(octave) => if fits_i8(odeg@ + 7 * octave) {
                    Ok(IntervalDeg((odeg@ + 7 * octave) as i8))
                } else {
                    Err(NotationError::InvalidDegree)
                },
            },
        }
    }
}

/// What a text stands for as a quality: `P`, `M` or `m`; a run of `A` or
/// of `d`, one for each semitone; or `A*` or `d*` and the number of
/// semitones in square brackets.
pub open spec fn qual_of(s: Seq<char>) -> Result<IntervalQual, NotationError> {
    if s == seq!['P'] {
        Ok(IntervalQual::Perfect)
    } else if s == seq!['M'] {
        Ok(IntervalQual::Major)
    } else if s == seq!['m'] {
        Ok(IntervalQual::Minor)
    } else if s.len() == 0 {
        Err(NotationError::InvalidQualityToken)
    } else if s[0] == '[' {
        if s.last() != ']' {
            Err(NotationError::UnclosedBracket)
        } else if s.len() >= 4 && (s[1] == 'A' || s[1] == 'd') && s[2] == '*' {
            match u8_of(s.subrange(3, s.len() - 1)) {
                Ok(n) => if s[1] == 'A' {
                    Ok(IntervalQual::Augmented(n))
                } else {
                    Ok(IntervalQual::Diminished(n))
                },
                Err(NotationError::IntegerOverflow) => Err(NotationError::IntegerOverflow),
                Err(_) => Err(NotationError::InvalidQualityToken),
            }
        } else {
            Err(NotationError::InvalidQualityToken)
        }
    } else if all_same(s, 'A') {
        if s.len() <= 255 {
            Ok(IntervalQual::Augmented(s.len() as u8))
        } else {
            Err(NotationError::IntegerOverflow)
        }
    } else if all_same(s, 'd') {
        if s.len() <= 255 {
            Ok(IntervalQual::Diminished(s.len() as u8))
        } else {
            Err(NotationError::IntegerOverflow)
        }
    } else {
        Err(NotationError::InvalidQualityToken)
    }
}

/// The two parts of the text of an interval: the digits that it ends in,
/// which are its degree, and what stands before them, its quality.
pub open spec fn split_of(s: Seq<char>) -> Result<(Seq<char>, Seq<char>), NotationError> {
    let k = digits_start(s);
    if k == s.len() {
        Err(NotationError::InvalidDegree)
    } else {
        Ok((s.subrange(0, k), s.subrange(k, s.len() as int)))
    }
}

/// What a text stands for as an interval within the octave: a quality and
/// a degree that go together.
pub open spec fn ointerval_of(s: Seq<char>) -> Result<OInterval, NotationError> {
    match split_of(s) {
        Err(e) => Err(e),
        Ok((q, d)) => match qual_of(q) {
            Err(e) => Err(e),
            Ok(qual) => match odeg_of(d) {
                Err(e) => Err(e),
                Ok(deg) => if qual.suits(deg) {
                    Ok(OInterval::of_parts(deg, qual))
                } else {
                    Err(NotationError::InvalidDegreeQualityPairing)
                },
            },
        },
    }
}

/// What a text without a sign in front stands for as an interval: a
/// quality, a degree from 1 on, and between them possibly a sign. The
/// interval is returned as if it pointed upwards, and with it whether the
/// sign leaves it so: a minus sign does not.
pub open spec fn upward_interval_of(s: Seq<char>) -> Result<(Interval, bool), NotationError> {
    match split_of(s) {
        Err(e) => Err(e),
        Ok((q, d)) => {
            let signed = q.len() > 0 && (q.last() == '-' || q.last() == '+');
            let upward = !(q.len() > 0 && q.last() == '-');
            let q = if signed {
                q.drop_last()
            } else {
                q
            };
            match qual_of(q) {
                Err(e) => Err(e),
                Ok(qual) => match u8_of(d) {
                    Ok(n) => if 1 <= n <= 128 {
                        let deg = IntervalDeg((n - 1) as i8);
                        if qual.suits(deg.odeg()) {
                            Ok((Interval::of_parts(deg, qual), upward))
                        } else {
                            Err(NotationError::InvalidDegreeQualityPairing)
                        }
                    } else {
                        Err(NotationError::InvalidDegree)
                    },
                    Err(_) => Err(NotationError::InvalidDegree),
                },
            }
        },
    }
}

/// The interval, or its negation where it is not to point upwards.
pub open spec fn directed(interval: Interval, upward: bool) -> Interval {
    if upward {
        interval
    } else {
        interval.negated()
    }
}

/// What a text stands for as an interval. A sign in front gives the
/// direction, a sign between quality and degree turns it once more.
/// Without a sign in front, an underscore may follow an interval within
/// the octave, and behind it the number of octaves.
pub open spec fn interval_of(s: Seq<char>) -> Result<Interval, NotationError> {
    if s.len() > 0 && (s[0] == '+' || s[0] == '-') {
        match upward_interval_of(s.drop_first()) {
            Err(e) => Err(e),
            Ok((interval, upward)) => Ok(directed(interval, upward == (s[0] == '+'))),
        }
    } else if index_of(s, '_') < s.len() {
        let k = index_of(s, '_');
        match ointerval_of(s.subrange(0, k)) {
            Err(e) => Err(e),
            Ok(ointerval) => match i8_of(s.subrange(k + 1, s.len() as int)) {
                Err(e) => Err(e),
                Ok(octave) => if fits_i8(ointerval@.deg + 7 * octave) {
                    Ok(Interval::of_model(ointerval@.lift(octave as int)))
                } else {
                    Err(NotationError::IntegerOverflow)
                },
            },
        }
    } else {
        match upward_interval_of(s) {
            Err(e) => Err(e),
            Ok((interval, upward)) => Ok(directed(interval, upward)),
        }
    }
}

impl OIntervalDeg {
    /// Reads a degree within the octave.
    pub fn from_str(s: &str) -> (r: Result<OIntervalDeg, NotationError>)
        ensures
            r == odeg_of(s@),
    {
        match parse_u8(s) {
            Ok(n) => if n >= 1 && n <= 7 {
                Ok(OIntervalDeg::from_index(n - 1).unwrap())
            } else {
                Err(NotationError::InvalidDegree)
            },
            Err(_) => Err(NotationError::InvalidDegree),
        }
    }
}

impl IntervalDeg {
    /// Reads a degree.
    pub fn from_str(s: &str) -> (r: Result<IntervalDeg, NotationError>)
        ensures
            r == deg_of(s@),
    {
        let chars = chars_of(s);
        let n = chars.len();
        let k = find_char(&chars, '_');
        if k == n {
            return match parse_u8(s) {
                Ok(n) => if n >= 1 && n <= 128 {
                    Ok(IntervalDeg((n - 1) as i8))
                } else {
                    Err(NotationError::InvalidDegree)
                },
                Err(_) => Err(NotationError::InvalidDegree),
            };
        }
        let odeg = match OIntervalDeg::from_str(s.substring_char(0, k)) {
            Ok(odeg) => odeg,
            Err(e) => { return Err(e); },
        };
        let octave = match parse_i8(s.substring_char(k + 1, n)) {
            Ok(octave) => octave,
            Err(e) => { return Err(e); },
        };
        let deg: i16 = odeg.index() as i16 + 7 * (octave as i16);
        if deg < -128 || deg > 127 {
            Err(NotationError::InvalidDegree)
        } else {
            Ok(IntervalDeg::from_odeg_and_octave(odeg, octave))
        }
    }
}

/// Whether the text holds the character `c` only.
fn holds_only(chars: &Vec<char>, c: char) -> (b: bool)
    ensures
        b == all_same(chars@, c),
{
    let n = chars.len();
    let mut i: usize = 0;
    while i < n
        invariant
            i <= n,
            n == chars.len(),
            forall|j: int| 0 <= j < i ==> (#[trigger] chars@[j]) == c,
        decreases n - i,
    {
        if chars[i] != c {
            return false;
        }
        i += 1;
    }
    true
}

impl IntervalQual {
    /// Reads a quality.
    pub fn from_str(s: &str) -> (r: Result<IntervalQual, NotationError>)
        ensures
            r == qual_of(s@),
    {
        let chars = chars_of(s);
        let n = chars.len();
        if n == 0 {
            proof {
                assert(seq!['P'].len() == 1 && seq!['M'].len() == 1 && seq!['m'].len() == 1);
            }
            return Err(NotationError::InvalidQualityToken);
        }
        let first = chars[0];
        proof {
            assert(seq!['P'][0] == 'P' && seq!['M'][0] == 'M' && seq!['m'][0] == 'm');
            assert(seq!['P'].len() == 1 && seq!['M'].len() == 1 && seq!['m'].len() == 1);
        }
        if n == 1 {
            if first == 'P' {
                assert(s@ =~= seq!['P']);
                return Ok(IntervalQual::Perfect);
            } else if first == 'M' {
                assert(s@ =~= seq!['M']);
                return Ok(IntervalQual::Major);
            } else if first == 'm' {
                assert(s@ =~= seq!['m']);
                return Ok(IntervalQual::Minor);
            }
        }
        if first == '[' {
            if chars[n - 1] != ']' {
                return Err(NotationError::UnclosedBracket);
            }
            if n >= 4 && (chars[1] == 'A' || chars[1] == 'd') && chars[2] == '*' {
                let number = drop_back(s.substring_char(3, n), 1);
                proof {
                    assert(number@ == s@.subrange(3, n - 1));
                }
                return match parse_u8(number) {
                    Ok(count) => if chars[1] == 'A' {
                        Ok(IntervalQual::Augmented(count))
                    } else {
                        Ok(IntervalQual::Diminished(count))
                    },
                    Err(NotationError::IntegerOverflow) => Err(NotationError::IntegerOverflow),
                    Err(_) => Err(NotationError::InvalidQualityToken),
                };
            }
            return Err(NotationError::InvalidQualityToken);
        }
        if holds_only(&chars, 'A') {
            if n <= 255 {
                Ok(IntervalQual::Augmented(n as u8))
            } else {
                Err(NotationError::IntegerOverflow)
            }
        } else if holds_only(&chars, 'd') {
            if n <= 255 {
                Ok(IntervalQual::Diminished(n as u8))
            } else {
                Err(NotationError::IntegerOverflow)
            }
        } else {
            Err(NotationError::InvalidQualityToken)
        }
    }
}

/// Splits the text of an interval into its quality and its degree: the
/// degree is the run of digits that the text ends in.
pub fn split_qual_and_deg(s: &str) -> (r: Result<(&str, &str), NotationError>)
    ensures
        match r {
            Ok((qual, deg)) => split_of(s@) == Ok::<(Seq<char>, Seq<char>), NotationError>(
                (qual@, deg@),
            ),
            Err(e) => split_of(s@) == Err::<(Seq<char>, Seq<char>), NotationError>(e),
        },
{
    let chars = chars_of(s);
    let n = chars.len();
    let k = trailing_digits(&chars);
    if k == n {
        Err(NotationError::InvalidDegree)
    } else {
        Ok((s.substring_char(0, k), s.substring_char(k, n)))
    }
}

impl OInterval {
    /// Reads an interval within the octave.
    pub fn from_str(s: &str) -> (r: Result<OInterval, NotationError>)
        ensures
            r == ointerval_of(s@),
    {
        let (q, d) = match split_qual_and_deg(s) {
            Ok(parts) => parts,
            Err(e) => { return Err(e); },
        };
        let qual = match IntervalQual::from_str(q) {
            Ok(qual) => qual,
            Err(e) => { return Err(e); },
        };
        let deg = match OIntervalDeg::from_str(d) {
            Ok(deg) => deg,
            Err(e) => { return Err(e); },
        };
        OInterval::try_from_deg_and_qual(deg, qual)
    }
}

impl Interval {
    /// Reads an interval that has no sign in front, and returns it as if
    /// it pointed upwards, together with whether it does.
    pub fn from_str_positive(s: &str) -> (r: Result<(Interval, bool), NotationError>)
        ensures
            r == upward_interval_of(s@),
    {
        let (q, d) = match split_qual_and_deg(s) {
            Ok(parts) => parts,
            Err(e) => { return Err(e); },
        };
        let q_chars = chars_of(q);
        let q_len = q_chars.len();
        let signed = q_len > 0 && (q_chars[q_len - 1] == '-' || q_chars[q_len - 1] == '+');
        let upward = !(q_len > 0 && q_chars[q_len - 1] == '-');
        let q = if signed {
            q.substring_char(0, q_len - 1)
        } else {
            q
        };
        let qual = match IntervalQual::from_str(q) {
            Ok(qual) => qual,
            Err(e) => { return Err(e); },
        };
        let deg = match parse_u8(d) {
            Ok(n) => if n >= 1 && n <= 128 {
                IntervalDeg((n - 1) as i8)
            } else {
                return Err(NotationError::InvalidDegree);
            },
            Err(_) => { return Err(NotationError::InvalidDegree); },
        };
        match Interval::from_deg_and_qual(deg, qual) {
            Ok(interval) => Ok((interval, upward)),
            Err(e) => Err(e),
        }
    }

    /// Reads an interval.
    pub fn from_str(s: &str) -> (r: Result<Interval, NotationError>)
        ensures
            r == interval_of(s@),
    {
        let chars = chars_of(s);
        let n = chars.len();
        if n > 0 && (chars[0] == '+' || chars[0] == '-') {
            let rest = s.substring_char(1, n);
            proof {
                assert(rest@ == s@.drop_first());
            }
            return match Interval::from_str_positive(rest) {
                Ok((interval, upward)) => if upward == (chars[0] == '+') {
                    Ok(interval)
                } else {
                    Ok(interval.neg())
                },
                Err(e) => Err(e),
            };
        }
        let k = find_char(&chars, '_');
        if k < n {
            let ointerval = match OInterval::from_str(s.substring_char(0, k)) {
                Ok(ointerval) => ointerval,
                Err(e) => { return Err(e); },
            };
            let octave = match parse_i8(s.substring_char(k + 1, n)) {
                Ok(octave) => octave,
                Err(e) => { return Err(e); },
            };
            let deg: i16 = ointerval.deg().index() as i16 + 7 * (octave as i16);
            return if deg < -128 || deg > 127 {
                Err(NotationError::IntegerOverflow)
            } else {
                Ok(Interval::from_ointerval_and_octave(ointerval, octave))
            };
        }
        proof {
            assert(s@.subrange(0, n as int) == s@);
        }
        match Interval::from_str_positive(s) {
            Ok((interval, upward)) => if upward {
                Ok(interval)
            } else {
                Ok(interval.neg())
            },
            Err(e) => Err(e),
        }
    }
}

} // verus!
