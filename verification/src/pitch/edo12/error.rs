use vstd::prelude::*;

verus! {

/// Why a value could not be built or a text could not be read.
#[derive(Clone, Copy, PartialEq, Eq, Debug, Hash, Structural)]
pub enum NotationError {
    /// The text is not one of the names of a step.
    UnknownStepName,
    /// A bracketed accidental or quality lacks its closing bracket.
    UnclosedBracket,
    /// A character stands where the notation does not allow it.
    InvalidCharacter,
    /// The degree is zero, not a number, or beyond the degrees that the
    /// type can hold.
    InvalidDegree,
    /// The text is none of the forms of a quality.
    InvalidQualityToken,
    /// Degree and quality are each well formed but do not go together, as
    /// in a major unison.
    InvalidDegreeQualityPairing,
    /// A number does not fit the integer that has to hold it.
    IntegerOverflow,
}

} // verus!
