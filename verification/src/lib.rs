//! A tiny compiled-comparison library.
//!
//! The library models the one mechanism of the program around it: building an
//! in-memory representation of a two-argument floating-point comparison
//! function, validating it, and knowing exactly what that function computes
//! when it runs.  Floating-point values are handled throughout as their
//! IEEE-754 double-precision bit patterns, so that the ordered comparison the
//! generated code performs can be stated and proved precisely.

pub mod errors;
pub mod eval;
pub mod fbits;
pub mod inputs;
pub mod ir;
pub mod render;
