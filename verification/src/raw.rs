//! The raw generator for integers: one sample of the entropy source, read as
//! one value.
//!
//! Every function here that takes an [`Entropy`] makes exactly one read of
//! the source, for the width in bytes of the value it is to make. What the
//! source handed back is then read by a function that takes that outcome as
//! its argument, so the reading itself depends on nothing but the bytes.
//!
//! Bytes are put together least significant first. That order is this
//! library's choice; no protocol asks for it.

use crate::error::EntropyError;
use crate::source::Entropy;
use vstd::prelude::*;

verus! {

/// The sample of `width` bytes that a read of the source amounts to: a
/// failure of the source stays as it is, a read that came back short is
/// `EntropyExhausted`, and of a longer one the first `width` bytes count.
pub open spec fn sample(read: Result<Vec<u8>, EntropyError>, width: nat) -> Result<
    Seq<u8>,
    EntropyError,
> {
    match read {
        Err(e) => Err(e),
        Ok(bytes) => if bytes@.len() < width {
            Err(EntropyError::EntropyExhausted)
        } else {
            Ok(bytes@.take(width as int))
        },
    }
}

/// The number that two bytes write, least significant byte first.
pub open spec fn le_u16(bytes: Seq<u8>) -> int {
    bytes[0] + 0x100 * bytes[1]
}

/// The number that four bytes write, least significant byte first.
pub open spec fn le_u32(bytes: Seq<u8>) -> int {
    bytes[0] + 0x100 * bytes[1] + 0x1_0000 * bytes[2] + 0x100_0000 * bytes[3]
}

/// The number that eight bytes write, least significant byte first.
pub open spec fn le_u64(bytes: Seq<u8>) -> int {
    bytes[0] + 0x100 * bytes[1] + 0x1_0000 * bytes[2] + 0x100_0000 * bytes[3] + 0x1_0000_0000
        * bytes[4] + 0x100_0000_0000 * bytes[5] + 0x1_0000_0000_0000 * bytes[6]
        + 0x100_0000_0000_0000 * bytes[7]
}

/// The two's complement integer that the number `value` stands for, in a
/// width that has `modulus` values: the upper half of the numbers stands for
/// the negative integers.
pub open spec fn twos_complement(value: int, modulus: int) -> int {
    if 2 * value < modulus {
        value
    } else {
        value - modulus
    }
}

/// What a read of the source gives where a `u8` is wanted.
pub open spec fn read_as_u8(read: Result<Vec<u8>, EntropyError>) -> Result<u8, EntropyError> {
    match sample(read, 1) {
        Err(e) => Err(e),
        Ok(bytes) => Ok(bytes[0]),
    }
}

/// What a read of the source gives where a `u16` is wanted.
pub open spec fn read_as_u16(read: Result<Vec<u8>, EntropyError>) -> Result<u16, EntropyError> {
    match sample(read, 2) {
        Err(e) => Err(e),
        Ok(bytes) => Ok(le_u16(bytes) as u16),
    }
}

/// What a read of the source gives where a `u32` is wanted.
pub open spec fn read_as_u32(read: Result<Vec<u8>, EntropyError>) -> Result<u32, EntropyError> {
    match sample(read, 4) {
        Err(e) => Err(e),
        Ok(bytes) => Ok(le_u32(bytes) as u32),
    }
}

/// What a read of the source gives where a `u64` is wanted.
pub open spec fn read_as_u64(read: Result<Vec<u8>, EntropyError>) -> Result<u64, EntropyError> {
    match sample(read, 8) {
        Err(e) => Err(e),
        Ok(bytes) => Ok(le_u64(bytes) as u64),
    }
}

/// What a read of the source gives where an `i8` is wanted.
pub open spec fn read_as_i8(read: Result<Vec<u8>, EntropyError>) -> Result<i8, EntropyError> {
    match sample(read, 1) {
        Err(e) => Err(e),
        Ok(bytes) => Ok(twos_complement(bytes[0] as int, 0x100) as i8),
    }
}

/// What a read of the source gives where an `i32` is wanted.
pub open spec fn read_as_i32(read: Result<Vec<u8>, EntropyError>) -> Result<i32, EntropyError> {
    match sample(read, 4) {
        Err(e) => Err(e),
        Ok(bytes) => Ok(twos_complement(le_u32(bytes), 0x1_0000_0000) as i32),
    }
}

/// The number that `bytes` write, least significant byte first, whatever
/// their count.
pub open spec fn le_value(bytes: Seq<u8>) -> nat
    decreases bytes.len(),
{
    if bytes.len() == 0 {
        0
    } else {
        bytes[0] as nat + 256 * le_value(bytes.drop_first())
    }
}

/// For the widths that the generator reads, `le_value` is the sum that
/// `le_u16`, `le_u32` and `le_u64` write out, and the sum fits the unsigned
/// type of that width.
pub proof fn lemma_le_value_written_out(bytes: Seq<u8>)
    ensures
        bytes.len() == 1 ==> le_value(bytes) == bytes[0],
        bytes.len() == 2 ==> le_value(bytes) == le_u16(bytes) <= u16::MAX,
        bytes.len() == 4 ==> le_value(bytes) == le_u32(bytes) <= u32::MAX,
        bytes.len() == 8 ==> le_value(bytes) == le_u64(bytes) <= u64::MAX,
{
    reveal_with_fuel(le_value, 9);
}

/// Reads the first `width` bytes of `bytes` as one number, least significant
/// byte first.
fn le_number(bytes: &Vec<u8>, width: usize) -> (value: u64)
    requires
        width == 1 || width == 2 || width == 4 || width == 8,
        width <= bytes@.len(),
    ensures
        value == le_value(bytes@.take(width as int)),
{
    let mut value: u64 = 0;
    let mut i: usize = width;
    proof {
        lemma_le_value_written_out(bytes@.take(width as int));
    }
    while i > 0
        invariant
            i <= width <= 8,
            width <= bytes@.len(),
            value == le_value(bytes@.subrange(i as int, width as int)),
            le_value(bytes@.take(width as int)) <= u64::MAX,
        decreases i,
    {
        let ghost tail = bytes@.subrange(i as int, width as int);
        let ghost grown = bytes@.subrange(i - 1, width as int);
        proof {
            assert(grown.drop_first() =~= tail);
            lemma_le_value_grows(bytes@.take(width as int), i - 1);
            assert(bytes@.take(width as int).skip(i - 1) =~= grown);
        }
        i = i - 1;
        value = value * 256 + bytes[i] as u64;
    }
    value
}

/// The number that the bytes from position `i` on write is no greater than
/// the number that all of them write.
proof fn lemma_le_value_grows(bytes: Seq<u8>, i: int)
    requires
        0 <= i <= bytes.len(),
    ensures
        le_value(bytes.skip(i)) <= le_value(bytes),
    decreases i,
{
    if i == 0 {
        assert(bytes.skip(0) =~= bytes);
    } else {
        lemma_le_value_grows(bytes, i - 1);
        assert(bytes.skip(i - 1).drop_first() =~= bytes.skip(i));
    }
}

/// Takes the `width` bytes that count from what the source handed back, and
/// reads them as one number.
fn number_from_read(read: Result<Vec<u8>, EntropyError>, width: usize) -> (r: Result<
    u64,
    EntropyError,
>)
    requires
        width == 1 || width == 2 || width == 4 || width == 8,
    ensures
        sample(read, width as nat) matches Err(e) ==> r == Err::<u64, EntropyError>(e),
        sample(read, width as nat) matches Ok(bytes) ==> r == Ok::<u64, EntropyError>(
            le_value(bytes) as u64,
        ) && le_value(bytes) <= u64::MAX,
{
    match read {
        Err(e) => Err(e),
        Ok(bytes) => {
            if bytes.len() < width {
                Err(EntropyError::EntropyExhausted)
            } else {
                proof {
                    lemma_le_value_written_out(bytes@.take(width as int));
                }
                Ok(le_number(&bytes, width))
            }
        },
    }
}

/// Reads what the source handed back as a `u8`.
pub fn u8_from_read(read: Result<Vec<u8>, EntropyError>) -> (r: Result<u8, EntropyError>)
    ensures
        r == read_as_u8(read),
{
    proof {
        if let Ok(bytes) = sample(read, 1) {
            lemma_le_value_written_out(bytes);
        }
    }
    match number_from_read(read, 1) {
        Err(e) => Err(e),
        Ok(value) => Ok(value as u8),
    }
}

/// Reads what the source handed back as a `u16`.
pub fn u16_from_read(read: Result<Vec<u8>, EntropyError>) -> (r: Result<u16, EntropyError>)
    ensures
        r == read_as_u16(read),
{
    proof {
        if let Ok(bytes) = sample(read, 2) {
            lemma_le_value_written_out(bytes);
        }
    }
    match number_from_read(read, 2) {
        Err(e) => Err(e),
        Ok(value) => Ok(value as u16),
    }
}

/// Reads what the source handed back as a `u32`.
pub fn u32_from_read(read: Result<Vec<u8>, EntropyError>) -> (r: Result<u32, EntropyError>)
    ensures
        r == read_as_u32(read),
{
    proof {
        if let Ok(bytes) = sample(read, 4) {
            lemma_le_value_written_out(bytes);
        }
    }
    match number_from_read(read, 4) {
        Err(e) => Err(e),
        Ok(value) => Ok(value as u32),
    }
}

/// Reads what the source handed back as a `u64`.
pub fn u64_from_read(read: Result<Vec<u8>, EntropyError>) -> (r: Result<u64, EntropyError>)
    ensures
        r == read_as_u64(read),
{
    proof {
        if let Ok(bytes) = sample(read, 8) {
            lemma_le_value_written_out(bytes);
        }
    }
    number_from_read(read, 8)
}

/// Reads what the source handed back as an `i8`.
pub fn i8_from_read(read: Result<Vec<u8>, EntropyError>) -> (r: Result<i8, EntropyError>)
    ensures
        r == read_as_i8(read),
{
    proof {
        if let Ok(bytes) = sample(read, 1) {
            lemma_le_value_written_out(bytes);
        }
    }
    match number_from_read(read, 1) {
        Err(e) => Err(e),
        Ok(value) => if value < 0x80 {
            Ok(value as i8)
        } else {
            Ok((value as i64 - 0x100) as i8)
        },
    }
}

/// Reads what the source handed back as an `i32`.
pub fn i32_from_read(read: Result<Vec<u8>, EntropyError>) -> (r: Result<i32, EntropyError>)
    ensures
        r == read_as_i32(read),
{
    proof {
        if let Ok(bytes) = sample(read, 4) {
            lemma_le_value_written_out(bytes);
        }
    }
    match number_from_read(read, 4) {
        Err(e) => Err(e),
        Ok(value) => if value < 0x8000_0000 {
            Ok(value as i32)
        } else {
            Ok((value as i64 - 0x1_0000_0000) as i32)
        },
    }
}

/// Draws a `u8`: makes one read of 1 byte and reads what came back as
/// [`u8_from_read`] does.
pub fn random_u8<S: Fn(usize) -> Result<Vec<u8>, EntropyError>>(
    entropy: &mut Entropy<S>,
) -> (r: Result<u8, EntropyError>)
    ensures
        final(entropy).drew_once(old(entropy), 1),
        r == read_as_u8(final(entropy).last_read()),
{
    u8_from_read(entropy.read(1))
}

/// Draws a `u16`: makes one read of 2 bytes and reads what came back as
/// [`u16_from_read`] does.
pub fn random_u16<S: Fn(usize) -> Result<Vec<u8>, EntropyError>>(
    entropy: &mut Entropy<S>,
) -> (r: Result<u16, EntropyError>)
    ensures
        final(entropy).drew_once(old(entropy), 2),
        r == read_as_u16(final(entropy).last_read()),
{
    u16_from_read(entropy.read(2))
}

/// Draws a `u32`: makes one read of 4 bytes and reads what came back as
/// [`u32_from_read`] does.
pub fn random_u32<S: Fn(usize) -> Result<Vec<u8>, EntropyError>>(
    entropy: &mut Entropy<S>,
) -> (r: Result<u32, EntropyError>)
    ensures
        final(entropy).drew_once(old(entropy), 4),
        r == read_as_u32(final(entropy).last_read()),
{
    u32_from_read(entropy.read(4))
}

/// Draws a `u64`: makes one read of 8 bytes and reads what came back as
/// [`u64_from_read`] does.
pub fn random_u64<S: Fn(usize) -> Result<Vec<u8>, EntropyError>>(
    entropy: &mut Entropy<S>,
) -> (r: Result<u64, EntropyError>)
    ensures
        final(entropy).drew_once(old(entropy), 8),
        r == read_as_u64(final(entropy).last_read()),
{
    u64_from_read(entropy.read(8))
}

/// Draws an `i8`: makes one read of 1 byte and reads what came back as
/// [`i8_from_read`] does.
pub fn random_i8<S: Fn(usize) -> Result<Vec<u8>, EntropyError>>(
    entropy: &mut Entropy<S>,
) -> (r: Result<i8, EntropyError>)
    ensures
        final(entropy).drew_once(old(entropy), 1),
        r == read_as_i8(final(entropy).last_read()),
{
    i8_from_read(entropy.read(1))
}

/// Draws an `i32`: makes one read of 4 bytes and reads what came back as
/// [`i32_from_read`] does.
pub fn random_i32<S: Fn(usize) -> Result<Vec<u8>, EntropyError>>(
    entropy: &mut Entropy<S>,
) -> (r: Result<i32, EntropyError>)
    ensures
        final(entropy).drew_once(old(entropy), 4),
        r == read_as_i32(final(entropy).last_read()),
{
    i32_from_read(entropy.read(4))
}

} // verus!
