//! A small library that builds human-memorable passwords: a few dictionary
//! words joined by a separator, the first letter capitalized, and a two-digit
//! numeric suffix, all under a caller-given length budget.
//!
//! The word-selection policy, the formatting pass and their edge cases are
//! specified and verified here; drawing random numbers and printing are left
//! to the caller.

pub mod generator;
pub mod laws;
pub mod model;
pub mod randomness;
pub mod text;
