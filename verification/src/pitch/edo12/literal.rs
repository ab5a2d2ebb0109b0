//! Reading a literal, as a program text may hold it: where a pitch is
//! wanted an interval may be written, and the other way round, since a
//! pitch is the interval from C up to it.

use crate::pitch::edo12::base::{OPitch, Pitch};
use crate::pitch::edo12::error::NotationError;
use crate::pitch::edo12::interval::{Interval, OInterval};
use crate::pitch::edo12::parsing::{interval_of, ointerval_of, opitch_of, pitch_of};
use vstd::prelude::*;

verus! {

impl OPitch {
    /// What a literal stands for as a pitch within the octave: the pitch
    /// that it names, or else the pitch that lies the interval that it
    /// names above C; where it names neither, the reason why it is no
    /// pitch.
    pub open spec fn of_literal(s: Seq<char>) -> Result<OPitch, NotationError> {
        match opitch_of(s) {
            Ok(pitch) => Ok(pitch),
            Err(e) => match ointerval_of(s) {
                Ok(interval) => Ok(OPitch::of_ointerval(interval)),
                Err(_) => Err(e),
            },
        }
    }

    /// Reads a literal as a pitch within the octave.
    pub fn from_literal(s: &str) -> (r: Result<OPitch, NotationError>)
        ensures
            r == OPitch::of_literal(s@),
    {
        match OPitch::from_str(s) {
            Ok(pitch) => Ok(pitch),
            Err(e) => match OInterval::from_str(s) {
                Ok(interval) => Ok(OPitch::from(interval)),
                Err(_) => Err(e),
            },
        }
    }
}

impl Pitch {
    /// What a literal stands for as a pitch: the pitch that it names, or
    /// else the pitch that lies the interval that it names above C of
    /// octave 0; where it names neither, the reason why it is no pitch.
    pub open spec fn of_literal(s: Seq<char>) -> Result<Pitch, NotationError> {
        match pitch_of(s) {
            Ok(pitch) => Ok(pitch),
            Err(e) => match interval_of(s) {
                Ok(interval) => Ok(Pitch::of_interval(interval)),
                Err(_) => Err(e),
            },
        }
    }

    /// Reads a literal as a pitch.
    pub fn from_literal(s: &str) -> (r: Result<Pitch, NotationError>)
        ensures
            r == Pitch::of_literal(s@),
    {
        match Pitch::from_str(s) {
            Ok(pitch) => Ok(pitch),
            Err(e) => match Interval::from_str(s) {
                Ok(interval) => Ok(Pitch::from(interval)),
                Err(_) => Err(e),
            },
        }
    }
}

impl OInterval {
    /// What a literal stands for as an interval within the octave: the
    /// interval that it names, or else the interval from C up to the
    /// pitch that it names; where it names neither, the reason why it is
    /// no interval.
    pub open spec fn of_literal(s: Seq<char>) -> Result<OInterval, NotationError> {
        match ointerval_of(s) {
            Ok(interval) => Ok(interval),
            Err(e) => match opitch_of(s) {
                Ok(pitch) => Ok(OInterval::of_opitch(pitch)),
                Err(_) => Err(e),
            },
        }
    }

    /// Reads a literal as an interval within the octave.
    pub fn from_literal(s: &str) -> (r: Result<OInterval, NotationError>)
        ensures
            r == OInterval::of_literal(s@),
    {
        match OInterval::from_str(s) {
            Ok(interval) => Ok(interval),
            Err(e) => match OPitch::from_str(s) {
                Ok(pitch) => Ok(OInterval::from(pitch)),
                Err(_) => Err(e),
            },
        }
    }
}

impl Interval {
    /// What a literal stands for as an interval: the interval that it
    /// names, or else the interval from C of octave 0 to the pitch that
    /// it names; where it names neither, the reason why it is no
    /// interval.
    pub open spec fn of_literal(s: Seq<char>) -> Result<Interval, NotationError> {
        match interval_of(s) {
            Ok(interval) => Ok(interval),
            Err(e) => match pitch_of(s) {
                Ok(pitch) => Ok(Interval::of_pitch(pitch)),
                Err(_) => Err(e),
            },
        }
    }

    /// Reads a literal as an interval.
    pub fn from_literal(s: &str) -> (r: Result<Interval, NotationError>)
        ensures
            r == Interval::of_literal(s@),
    {
        match Interval::from_str(s) {
            Ok(interval) => Ok(interval),
            Err(e) => match Pitch::from_str(s) {
                Ok(pitch) => Ok(Interval::from(pitch)),
                Err(_) => Err(e),
            },
        }
    }
}

} // verus!
