//! Addition, subtraction, negation and scalar multiplication.
//!
//! The operators never fail: where a result does not fit the eight-bit
//! fields, it wraps around. The checked variants return `None` there.

mod abs;
mod add;
mod assign;
mod neg;
mod scalar_mul;
mod sign;
mod sub;
