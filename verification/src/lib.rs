//! Typed random values drawn from a caller-supplied entropy source.
//!
//! The library has two layers. The raw generator asks the source for a
//! fixed number of bytes and reads them, least significant byte first, as
//! one value of a numeric type, or as a string of one character. The range
//! mapper folds one raw value into a closed interval by modulo reduction.
//!
//! An entropy source is any function from a byte count to either that many
//! bytes or an [`error::EntropyError`]; [`source::Entropy`] holds one. The
//! library keeps no state of its own: every value is made from one fresh
//! read of the source.

pub mod decimal;
pub mod error;
pub mod floats;
pub mod prelude;
pub mod range;
pub mod raw;
pub mod source;
pub mod strings;
