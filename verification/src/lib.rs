//! Argument handling for an osu! difficulty and performance calculator that is
//! exposed to JavaScript.
//!
//! The library holds the rules by which JavaScript values become calculator
//! arguments (which codes stand for which hitresult priority and generator, how
//! beatmap content becomes bytes, which of several candidates is taken as a map
//! or as attributes) and the order in which the arguments are handed to the
//! calculator, as plans of steps. Floating-point settings are carried as their
//! IEEE-754 bit patterns; interpreting them is left to the caller.

pub mod args;
pub mod attributes;
pub mod steps;
