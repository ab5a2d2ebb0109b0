//! Writing the textual notation.
//!
//! For each type `text` says which text stands for a value, and
//! `to_string` is proved to return exactly that.

use crate::num::fits_i8;
use crate::pitch::edo12::base::{Acci, OPitch, OStep, Pitch, Step};
use crate::pitch::edo12::interval::{
    Interval, IntervalDeg, IntervalQual, OInterval, OIntervalDeg,
};
use std::cmp::Ordering;
use vstd::prelude::*;
use vstd::string::*;

verus! {

/// The digit that stands for a number below ten.
pub open spec fn digit_char(d: int) -> char {
    if d == 0 {
        '0'
    } else if d == 1 {
        '1'
    } else if d == 2 {
        '2'
    } else if d == 3 {
        '3'
    } else if d == 4 {
        '4'
    } else if d == 5 {
        '5'
    } else if d == 6 {
        '6'
    } else if d == 7 {
        '7'
    } else if d == 8 {
        '8'
    } else {
        '9'
    }
}

/// The digits of a number in base ten, without leading zeros.
pub open spec fn decimal_text(n: nat) -> Seq<char>
    decreases n,
{
    if n < 10 {
        seq![digit_char(n as int)]
    } else {
        decimal_text(n / 10).push(digit_char((n % 10) as int))
    }
}

/// The text of a number: its digits, behind a minus sign where it is
/// negative.
pub open spec fn number_text(n: int) -> Seq<char> {
    if n < 0 {
        seq!['-'] + decimal_text((-n) as nat)
    } else {
        decimal_text(n as nat)
    }
}

/// The character `c`, written `n` times.
pub open spec fn repeated(c: char, n: nat) -> Seq<char> {
    Seq::new(n, |i: int| c)
}

/// One digit as a text.
fn digit_str(d: u32) -> (s: &'static str)
    requires
        d < 10,
    ensures
        s@ == seq![digit_char(d as int)],
{
    proof {
        reveal_strlit("0");
        reveal_strlit("1");
        reveal_strlit("2");
        reveal_strlit("3");
        reveal_strlit("4");
        reveal_strlit("5");
        reveal_strlit("6");
        reveal_strlit("7");
        reveal_strlit("8");
        reveal_strlit("9");
    }
    let s = match d {
        0 => "0",
        1 => "1",
        2 => "2",
        3 => "3",
        4 => "4",
        5 => "5",
        6 => "6",
        7 => "7",
        8 => "8",
        _ => "9",
    };
    assert(s@ =~= seq![digit_char(d as int)]);
    s
}

/// Writes the digits of `n` behind the text.
fn append_decimal(out: &mut String, n: u32)
    ensures
        final(out)@ == old(out)@ + decimal_text(n as nat),
    decreases n,
{
    if n >= 10 {
        append_decimal(out, n / 10);
    }
    out.append(digit_str(n % 10));
    proof {
        if n >= 10 {
            assert(final(out)@ =~= old(out)@ + decimal_text(n as nat));
        } else {
            assert(final(out)@ =~= old(out)@ + decimal_text(n as nat));
        }
    }
}

/// Writes the character of `piece`, a text of one character, `n` times
/// behind the text.
fn append_repeated(out: &mut String, piece: &str, n: u8)
    requires
        piece@.len() == 1,
    ensures
        final(out)@ == old(out)@ + repeated(piece@[0], n as nat),
{
    let mut i: u8 = 0;
    while i < n
        invariant
            i <= n,
            piece@.len() == 1,
            out@ == old(out)@ + repeated(piece@[0], i as nat),
        decreases n - i,
    {
        out.append(piece);
        i += 1;
        proof {
            assert(out@ =~= old(out)@ + repeated(piece@[0], i as nat));
        }
    }
}

impl OStep {
    /// The name of the step: its letter.
    pub open spec fn text(self) -> Seq<char> {
        match self {
            OStep::C => seq!['C'],
            OStep::D => seq!['D'],
            OStep::E => seq!['E'],
            OStep::F => seq!['F'],
            OStep::G => seq!['G'],
            OStep::A => seq!['A'],
            OStep::B => seq!['B'],
        }
    }

    /// The name of the step as a text slice.
    pub fn name(self) -> (s: &'static str)
        ensures
            s@ == self.text(),
    {
        proof {
            reveal_strlit("C");
            reveal_strlit("D");
            reveal_strlit("E");
            reveal_strlit("F");
            reveal_strlit("G");
            reveal_strlit("A");
            reveal_strlit("B");
        }
        let s = match self {
            OStep::C => "C",
            OStep::D => "D",
            OStep::E => "E",
            OStep::F => "F",
            OStep::G => "G",
            OStep::A => "A",
            OStep::B => "B",
        };
        assert(s@ =~= self.text());
        s
    }

    pub fn to_string(&self) -> (s: String)
        ensures
            s@ == self.text(),
    {
        let mut out = String::new();
        out.append(self.name());
        proof {
            assert(out@ =~= self.text());
        }
        out
    }
}

impl Step {
    /// The text of the step: its name, an underscore, and its octave.
    pub open spec fn text(self) -> Seq<char> {
        OStep::of_int(self@).text() + seq!['_'] + number_text(self@ / 7)
    }

    pub fn to_string(&self) -> (s: String)
        ensures
            s@ == self.text(),
    {
        let (ostep, octave) = self.into_ostep_and_octave();
        let mut out = String::new();
        out.append(ostep.name());
        proof {
            reveal_strlit("_");
        }
        append_number(&mut out, octave as i32, "_");
        proof {
            assert(out@ =~= self.text());
        }
        out
    }
}

/// Writes `lead`, a text of one character, and the number `n` behind the
/// text.
fn append_number(out: &mut String, n: i32, lead: &str)
    requires
        lead@.len() == 1,
        -0x1000_0000 < n < 0x1000_0000,
    ensures
        final(out)@ == old(out)@ + seq![lead@[0]] + number_text(n as int),
{
    proof {
        reveal_strlit("-");
    }
    out.append(lead);
    if n < 0 {
        out.append("-");
        append_decimal(out, (-n) as u32);
    } else {
        append_decimal(out, n as u32);
    }
    proof {
        assert(final(out)@ =~= old(out)@ + seq![lead@[0]] + number_text(n as int));
    }
}

impl Acci {
    /// The text of the accidental: up to three plus signs for sharps or
    /// minus signs for flats; beyond three, the number of semitones with
    /// its sign in square brackets; and empty square brackets for the
    /// natural.
    pub open spec fn text(self) -> Seq<char> {
        let n = self@;
        if n == 0 {
            seq!['[', ']']
        } else if 1 <= n <= 3 {
            repeated('+', n as nat)
        } else if -3 <= n <= -1 {
            repeated('-', (-n) as nat)
        } else if n > 0 {
            seq!['[', '+'] + decimal_text(n as nat) + seq![']']
        } else {
            seq!['[', '-'] + decimal_text((-n) as nat) + seq![']']
        }
    }

    pub fn to_string(&self) -> (s: String)
        ensures
            s@ == self.text(),
    {
        proof {
            reveal_strlit("[]");
            reveal_strlit("+");
            reveal_strlit("-");
            reveal_strlit("[");
            reveal_strlit("]");
        }
        let n = self.0;
        let mut out = String::new();
        if n == 0 {
            out.append("[]");
            proof {
                assert(out@ =~= self.text());
            }
        } else if 1 <= n && n <= 3 {
            append_repeated(&mut out, "+", n as u8);
            proof {
                assert(out@ =~= self.text());
            }
        } else if -3 <= n && n <= -1 {
            append_repeated(&mut out, "-", (-n) as u8);
            proof {
                assert(out@ =~= self.text());
            }
        } else if n > 0 {
            out.append("[");
            out.append("+");
            append_decimal(&mut out, n as u32);
            out.append("]");
            proof {
                assert(out@ =~= self.text());
            }
        } else {
            out.append("[");
            out.append("-");
            append_decimal(&mut out, (-(n as i32)) as u32);
            out.append("]");
            proof {
                assert(out@ =~= self.text());
            }
        }
        out
    }
}

impl OPitch {
    /// The text of the pitch: the name of its step, and its accidental
    /// unless that is the natural.
    pub open spec fn text(self) -> Seq<char> {
        if self@.acci() == 0 {
            self.step.text()
        } else {
            self.step.text() + Acci(self@.acci() as i8).text()
        }
    }

    /// The text of the pitch. The accidental has to fit an `Acci`.
    pub fn to_string(&self) -> (s: String)
        requires
            fits_i8(self@.acci()),
        ensures
            s@ == self.text(),
    {
        let mut out = String::new();
        out.append(self.step.name());
        if !self.is_diatonic() {
            let acci = self.acci().to_string();
            out.append(acci.as_str());
        }
        proof {
            assert(out@ =~= self.text());
        }
        out
    }
}

impl Pitch {
    /// The text of the pitch: that of the pitch reduced to octave 0, an
    /// underscore, and the octave.
    pub open spec fn text(self) -> Seq<char> {
        OPitch::of_pitch(self).text() + seq!['_'] + number_text(self@.octave())
    }

    /// The text of the pitch. The accidental has to fit an `Acci`.
    pub fn to_string(&self) -> (s: String)
        requires
            fits_i8(OPitch::of_pitch(*self)@.acci()),
        ensures
            s@ == self.text(),
    {
        let opitch = OPitch::from_pitch(*self);
        let octave = self.octave();
        let mut out = opitch.to_string();
        proof {
            reveal_strlit("_");
        }
        append_number(&mut out, octave as i32, "_");
        proof {
            assert(out@ =~= self.text());
        }
        out
    }
}

impl IntervalQual {
    /// The text of the quality: `P`, `M` or `m`; up to three `A` or `d`,
    /// one for each semitone; beyond three, `A*` or `d*` and the number of
    /// semitones in square brackets.
    pub open spec fn text(self) -> Seq<char> {
        match self {
            IntervalQual::Perfect => seq!['P'],
            IntervalQual::Major => seq!['M'],
            IntervalQual::Minor => seq!['m'],
            IntervalQual::Augmented(n) => if n <= 3 {
                repeated('A', n as nat)
            } else {
                seq!['[', 'A', '*'] + decimal_text(n as nat) + seq![']']
            },
            IntervalQual::Diminished(n) => if n <= 3 {
                repeated('d', n as nat)
            } else {
                seq!['[', 'd', '*'] + decimal_text(n as nat) + seq![']']
            },
        }
    }

    pub fn to_string(&self) -> (s: String)
        ensures
            s@ == self.text(),
    {
        proof {
            reveal_strlit("P");
            reveal_strlit("M");
            reveal_strlit("m");
            reveal_strlit("A");
            reveal_strlit("d");
            reveal_strlit("[A*");
            reveal_strlit("[d*");
            reveal_strlit("]");
        }
        let mut out = String::new();
        match *self {
            IntervalQual::Perfect => {
                out.append("P");
            },
            IntervalQual::Major => {
                out.append("M");
            },
            IntervalQual::Minor => {
                out.append("m");
            },
            IntervalQual::Augmented(n) => {
                if n <= 3 {
                    append_repeated(&mut out, "A", n);
                } else {
                    out.append("[A*");
                    append_decimal(&mut out, n as u32);
                    out.append("]");
                }
            },
            IntervalQual::Diminished(n) => {
                if n <= 3 {
                    append_repeated(&mut out, "d", n);
                } else {
                    out.append("[d*");
                    append_decimal(&mut out, n as u32);
                    out.append("]");
                }
            },
        }
        proof {
            assert(out@ =~= self.text());
        }
        out
    }
}

impl OIntervalDeg {
    /// The text of the degree: its musical number, from 1 for the unison
    /// to 7 for the seventh.
    pub open spec fn text(self) -> Seq<char> {
        decimal_text((self@ + 1) as nat)
    }

    pub fn to_string(&self) -> (s: String)
        ensures
            s@ == self.text(),
    {
        let mut out = String::new();
        append_decimal(&mut out, self.index() as u32 + 1);
        proof {
            assert(out@ =~= self.text());
        }
        out
    }
}

impl OInterval {
    /// The text of the interval: its quality, then its degree.
    pub open spec fn text(self) -> Seq<char> {
        self@.qual.text() + decimal_text((self@.deg + 1) as nat)
    }

    pub fn to_string(&self) -> (s: String)
        ensures
            s@ == self.text(),
    {
        let mut out = self.qual.to_string();
        append_decimal(&mut out, self.deg.index() as u32 + 1);
        out
    }
}

impl Interval {
    /// The text of an interval that points upwards: its quality, then
    /// its degree counted from 1.
    pub open spec fn upward_text(self) -> Seq<char> {
        self@.qual.text() + number_text(self@.deg + 1)
    }

    /// The text of the interval: that of the interval measured upwards,
    /// behind a minus sign where the interval points downwards.
    pub open spec fn text(self) -> Seq<char> {
        if self.sign_spec() == Ordering::Less {
            seq!['-'] + self.abs_spec().upward_text()
        } else {
            self.upward_text()
        }
    }

    fn append_upward(&self, out: &mut String)
        ensures
            final(out)@ == old(out)@ + self.upward_text(),
    {
        let qual = self.qual.to_string();
        out.append(qual.as_str());
        let number: i32 = self.deg.0 as i32 + 1;
        if number < 0 {
            proof {
                reveal_strlit("-");
            }
            out.append("-");
            append_decimal(out, (-number) as u32);
        } else {
            append_decimal(out, number as u32);
        }
        proof {
            assert(final(out)@ =~= old(out)@ + self.upward_text());
        }
    }

    pub fn to_string(&self) -> (s: String)
        ensures
            s@ == self.text(),
    {
        let mut out = String::new();
        match self.sign() {
            Ordering::Less => {
                proof {
                    reveal_strlit("-");
                }
                out.append("-");
                self.abs().append_upward(&mut out);
                proof {
                    assert(out@ =~= self.text());
                }
            },
            _ => {
                self.append_upward(&mut out);
                proof {
                    assert(out@ =~= self.text());
                }
            },
        }
        out
    }
}

} // verus!
