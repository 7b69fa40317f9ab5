//! The raw generator for single-precision values, which the library holds
//! as their 32-bit patterns.
//!
//! A pattern that is a NaN is never handed out. One draw either yields a
//! pattern that is no NaN or reports that the sample was rejected; drawing
//! again after a rejected sample, for as long as it takes, is left to the
//! caller.

use crate::error::EntropyError;
use crate::raw::{read_as_u32, u32_from_read};
use crate::source::Entropy;
use vstd::prelude::*;

verus! {

/// Whether `bits`, read as an IEEE 754 single-precision value, is a NaN:
/// without the sign bit it lies above the pattern of infinity, which is to
/// say that all eight exponent bits are set and the fraction is not zero.
pub open spec fn is_nan_pattern(bits: u32) -> bool {
    bits % 0x8000_0000 > 0x7f80_0000
}

/// What a read of the source gives where the bit pattern of a
/// single-precision value is wanted: the failure; or the pattern; or
/// nothing, where the pattern is a NaN and another sample has to be drawn.
pub open spec fn read_as_f32_bits(read: Result<Vec<u8>, EntropyError>) -> Result<
    Option<u32>,
    EntropyError,
> {
    match read_as_u32(read) {
        Err(e) => Err(e),
        Ok(bits) => if is_nan_pattern(bits) {
            Ok(None)
        } else {
            Ok(Some(bits))
        },
    }
}

/// Reads what the source handed back as the bit pattern of a
/// single-precision value. A pattern that is a NaN is never handed out: the
/// result is then `Ok(None)`, and the caller draws again.
pub fn f32_bits_from_read(read: Result<Vec<u8>, EntropyError>) -> (r: Result<
    Option<u32>,
    EntropyError,
>)
    ensures
        r == read_as_f32_bits(read),
        r matches Ok(Some(bits)) ==> !is_nan_pattern(bits),
{
    match u32_from_read(read) {
        Err(e) => Err(e),
        Ok(bits) => if bits % 0x8000_0000 > 0x7f80_0000 {
            Ok(None)
        } else {
            Ok(Some(bits))
        },
    }
}

/// Draws the bit pattern of a single-precision value: makes one read of 4
/// bytes and reads what came back as [`f32_bits_from_read`] does.
pub fn draw_f32_bits<S: Fn(usize) -> Result<Vec<u8>, EntropyError>>(
    entropy: &mut Entropy<S>,
) -> (r: Result<Option<u32>, EntropyError>)
    ensures
        final(entropy).drew_once(old(entropy), 4),
        r == read_as_f32_bits(final(entropy).last_read()),
        r matches Ok(Some(bits)) ==> !is_nan_pattern(bits),
{
    f32_bits_from_read(entropy.read(4))
}

} // verus!
