//! Twelve-tone equal temperament.

mod arith;
mod base;
mod co5;
mod constants;
mod convert;
mod error;
mod interval;
pub mod laws;
mod literal;
mod order;
pub mod parsing;
mod qual;
pub mod repr;
pub mod text;
pub mod text_laws;
pub mod traits;

pub use base::{Acci, OPitch, OStep, Pitch, PitchModel, Step};
pub use error::NotationError;
pub use interval::{
    Interval, IntervalDeg, IntervalModel, IntervalQual, OInterval, OIntervalDeg,
};
pub use traits::{AbsQual, AcciByQual, Co5Order, FromCo5Order, PitchNotation, Qual};
