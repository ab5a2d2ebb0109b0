//! A closed algebra of pitch and interval notation in twelve-tone equal
//! temperament: note names, accidentals, pitches and intervals, their
//! arithmetic and ordering, the circle of fifths, and a textual notation.

pub mod num;
pub mod pitch;
pub mod traits;
