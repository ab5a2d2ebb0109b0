//! Pitch notation, one module per tuning system.

pub mod edo12;
