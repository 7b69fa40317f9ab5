//! The range mapper: one raw value, folded into a closed interval.
//!
//! A range is a pair of bounds of one type, both of them possible results.
//! A range whose start lies above its end is refused; one whose bounds are
//! equal has its only member as the result and draws nothing from the
//! source; any other costs exactly one raw value, which is reduced modulo
//! the size of the range and added to the start.
//!
//! The reduction is plain modulo: where the size of the range does not
//! divide the number of raw values, the low end of the range comes out
//! slightly more often. That is left as it is.
//!
//! Each operation says in its contract what it did to the record of reads
//! that the [`Entropy`] keeps: nothing, where no raw value is needed, and
//! one read of the raw value's width where one is. Its result is then stated
//! as a function of the bounds and of what that read handed back.

use crate::decimal::{decimal, decimal_string, signed_decimal, signed_decimal_string};
use crate::error::{failure, EntropyError, RangeError, RangeFailure};
use crate::raw::{random_i32, random_u32, random_u64, read_as_i32, read_as_u32, read_as_u64};
use crate::source::Entropy;
use vstd::prelude::*;

verus! {

/// The number of members of the range from `start` to `end`, both of them
/// counted.
pub open spec fn range_size(start: int, end: int) -> int {
    end - start + 1
}

/// A raw value without its sign.
pub open spec fn magnitude(raw: int) -> int {
    if raw < 0 {
        -raw
    } else {
        raw
    }
}

/// Where modulo reduction puts the raw value `raw` in the range from `start`
/// to `end`: at the start plus the remainder that the raw value, taken
/// without its sign, leaves when it is divided by the size of the range.
pub open spec fn fold(start: int, end: int, raw: int) -> int {
    start + magnitude(raw) % range_size(start, end)
}

/// Whatever the raw value, its place in a range lies between the bounds,
/// both included.
pub proof fn lemma_fold_keeps_bounds(start: int, end: int, raw: int)
    requires
        start <= end,
    ensures
        start <= fold(start, end, raw) <= end,
{
    let size = range_size(start, end);
    let m = magnitude(raw);
    assert(0 <= m % size < size) by (nonlinear_arith)
        requires
            0 <= m,
            0 < size,
    ;
}

/// Both ends of a range can come out, and every member between them: the
/// member `v` is the place of the raw value that is its distance from the
/// start.
pub proof fn lemma_fold_reaches_every_member(start: int, end: int, v: int)
    requires
        start <= v <= end,
    ensures
        fold(start, end, v - start) == v,
{
    let size = range_size(start, end);
    let raw = v - start;
    assert(raw % size == raw) by (nonlinear_arith)
        requires
            0 <= raw < size,
    ;
}

/// A raw value below the size of the range is not reduced: it is added to
/// the start as it is.
pub proof fn lemma_fold_of_small_raw(start: int, end: int, raw: int)
    requires
        0 <= raw <= end - start,
    ensures
        fold(start, end, raw) == start + raw,
{
    lemma_fold_reaches_every_member(start, end, start + raw);
}

/// Folds the raw value `raw` into the `usize` range from `start` to `end`.
///
/// The size of the range of all of `usize` is one more than the type
/// holds. No raw value reaches it, so each is its own place in that range.
pub fn fold_into_range(start: usize, end: usize, raw: u32) -> (v: usize)
    requires
        start <= end,
    ensures
        v == fold(start as int, end as int, raw as int),
        start <= v <= end,
{
    proof {
        lemma_fold_keeps_bounds(start as int, end as int, raw as int);
    }
    match (end - start).checked_add(1) {
        Some(size) => start + raw as usize % size,
        None => {
            proof {
                lemma_fold_of_small_raw(start as int, end as int, raw as int);
            }
            raw as usize
        },
    }
}

/// Folds the raw value `raw` into the `u64` range from `start` to `end`.
///
/// The size of the range of all of `u64` is one more than the type holds.
/// No raw value reaches it, so each is its own place in that range.
pub fn fold_into_u64range(start: u64, end: u64, raw: u64) -> (v: u64)
    requires
        start <= end,
    ensures
        v == fold(start as int, end as int, raw as int),
        start <= v <= end,
{
    proof {
        lemma_fold_keeps_bounds(start as int, end as int, raw as int);
    }
    match (end - start).checked_add(1) {
        Some(size) => start + raw % size,
        None => {
            proof {
                lemma_fold_of_small_raw(start as int, end as int, raw as int);
            }
            raw
        },
    }
}

/// Folds the raw value `raw`, taken without its sign, into the `i32` range
/// from `start` to `end`.
///
/// The size of a wide range and the magnitude of the least `i32` do not fit
/// the type; both are held in a wider one.
pub fn fold_into_i32range(start: i32, end: i32, raw: i32) -> (v: i32)
    requires
        start <= end,
    ensures
        v == fold(start as int, end as int, raw as int),
        start <= v <= end,
{
    proof {
        lemma_fold_keeps_bounds(start as int, end as int, raw as int);
    }
    let size: u64 = (end as i64 - start as i64 + 1) as u64;
    let unsigned: u64 = if raw < 0 {
        (-(raw as i64)) as u64
    } else {
        raw as u64
    };
    let offset = unsigned % size;
    (start as i64 + offset as i64) as i32
}

/// What a range operation on `usize` returns for a range with `start < end`,
/// given what the one read of the source handed back: the failure of the
/// raw generator, unchanged, or the raw value folded into the range.
pub open spec fn usize_range_from_read(
    start: usize,
    end: usize,
    read: Result<Vec<u8>, EntropyError>,
) -> Result<usize, RangeError> {
    match read_as_u32(read) {
        Err(e) => Err(RangeError::Entropy(e)),
        Ok(raw) => Ok(fold(start as int, end as int, raw as int) as usize),
    }
}

/// What [`random_from_u64range`] returns for a range with `start < end`,
/// given what the one read of the source handed back.
pub open spec fn u64_range_from_read(
    start: u64,
    end: u64,
    read: Result<Vec<u8>, EntropyError>,
) -> Result<u64, RangeError> {
    match read_as_u64(read) {
        Err(e) => Err(RangeError::Entropy(e)),
        Ok(raw) => Ok(fold(start as int, end as int, raw as int) as u64),
    }
}

/// What [`random_from_i32range`] returns for a range with `start < end`,
/// given what the one read of the source handed back.
pub open spec fn i32_range_from_read(
    start: i32,
    end: i32,
    read: Result<Vec<u8>, EntropyError>,
) -> Result<i32, RangeError> {
    match read_as_i32(read) {
        Err(e) => Err(RangeError::Entropy(e)),
        Ok(raw) => Ok(fold(start as int, end as int, raw as int) as i32),
    }
}

/// Draws a `usize` from the range from `start` to `end`, both included.
///
/// The raw value is 32 bits wide, whatever the width of `usize`. A range
/// that is refused, and a range of one member, cost no entropy: no read is
/// made, and the result is the same whatever state the source is in. Any
/// other range costs one read of 4 bytes.
pub fn random_from_range<S: Fn(usize) -> Result<Vec<u8>, EntropyError>>(
    start: usize,
    end: usize,
    entropy: &mut Entropy<S>,
) -> (r: Result<usize, RangeError>)
    ensures
        start > end ==> *final(entropy) == *old(entropy) && failure(r) == Some(
            RangeFailure::InvalidRange(decimal(start as nat), decimal(end as nat)),
        ),
        start == end ==> *final(entropy) == *old(entropy) && r == Ok::<usize, RangeError>(start),
        start < end ==> final(entropy).drew_once(old(entropy), 4) && r == usize_range_from_read(
            start,
            end,
            final(entropy).last_read(),
        ),
        r matches Ok(v) ==> start <= v <= end,
{
    if start < end {
        match random_u32(entropy) {
            Err(e) => Err(RangeError::Entropy(e)),
            Ok(raw) => Ok(fold_into_range(start, end, raw)),
        }
    } else if start == end {
        Ok(start)
    } else {
        Err(RangeError::InvalidRange(decimal_string(start as u64), decimal_string(end as u64)))
    }
}

/// Draws a `u64` from the range from `start` to `end`, both included.
///
/// A range that is refused, and a range of one member, cost no entropy. Any
/// other range costs one read of 8 bytes.
pub fn random_from_u64range<S: Fn(usize) -> Result<Vec<u8>, EntropyError>>(
    start: u64,
    end: u64,
    entropy: &mut Entropy<S>,
) -> (r: Result<u64, RangeError>)
    ensures
        start > end ==> *final(entropy) == *old(entropy) && failure(r) == Some(
            RangeFailure::InvalidRange(decimal(start as nat), decimal(end as nat)),
        ),
        start == end ==> *final(entropy) == *old(entropy) && r == Ok::<u64, RangeError>(start),
        start < end ==> final(entropy).drew_once(old(entropy), 8) && r == u64_range_from_read(
            start,
            end,
            final(entropy).last_read(),
        ),
        r matches Ok(v) ==> start <= v <= end,
{
    if start < end {
        match random_u64(entropy) {
            Err(e) => Err(RangeError::Entropy(e)),
            Ok(raw) => Ok(fold_into_u64range(start, end, raw)),
        }
    } else if start == end {
        Ok(start)
    } else {
        Err(RangeError::InvalidRange(decimal_string(start), decimal_string(end)))
    }
}

/// Draws an `i32` from the range from `start` to `end`, both included.
///
/// The raw value is a signed 32-bit one, folded without its sign. A range
/// that is refused, and a range of one member, cost no entropy. Any other
/// range costs one read of 4 bytes.
pub fn random_from_i32range<S: Fn(usize) -> Result<Vec<u8>, EntropyError>>(
    start: i32,
    end: i32,
    entropy: &mut Entropy<S>,
) -> (r: Result<i32, RangeError>)
    ensures
        start > end ==> *final(entropy) == *old(entropy) && failure(r) == Some(
            RangeFailure::InvalidRange(signed_decimal(start as int), signed_decimal(end as int)),
        ),
        start == end ==> *final(entropy) == *old(entropy) && r == Ok::<i32, RangeError>(start),
        start < end ==> final(entropy).drew_once(old(entropy), 4) && r == i32_range_from_read(
            start,
            end,
            final(entropy).last_read(),
        ),
        r matches Ok(v) ==> start <= v <= end,
{
    if start < end {
        match random_i32(entropy) {
            Err(e) => Err(RangeError::Entropy(e)),
            Ok(raw) => Ok(fold_into_i32range(start, end, raw)),
        }
    } else if start == end {
        Ok(start)
    } else {
        Err(
            RangeError::InvalidRange(
                signed_decimal_string(start as i64),
                signed_decimal_string(end as i64),
            ),
        )
    }
}

/// Draws a `usize` from zero up to `ceiling`, both included: the range from
/// the least `usize` to `ceiling`.
pub fn random_with_ceiling<S: Fn(usize) -> Result<Vec<u8>, EntropyError>>(
    ceiling: usize,
    entropy: &mut Entropy<S>,
) -> (r: Result<usize, RangeError>)
    ensures
        ceiling == 0 ==> *final(entropy) == *old(entropy) && r == Ok::<usize, RangeError>(0),
        0 < ceiling ==> final(entropy).drew_once(old(entropy), 4) && r == usize_range_from_read(
            0,
            ceiling,
            final(entropy).last_read(),
        ),
        r matches Ok(v) ==> v <= ceiling,
{
    random_from_range(usize::MIN, ceiling, entropy)
}

/// Draws a `usize` from `floor` up to the greatest `usize`, both included.
pub fn random_with_floor<S: Fn(usize) -> Result<Vec<u8>, EntropyError>>(
    floor: usize,
    entropy: &mut Entropy<S>,
) -> (r: Result<usize, RangeError>)
    ensures
        floor == usize::MAX ==> *final(entropy) == *old(entropy) && r == Ok::<usize, RangeError>(
            floor,
        ),
        floor < usize::MAX ==> final(entropy).drew_once(old(entropy), 4) && r
            == usize_range_from_read(floor, usize::MAX, final(entropy).last_read()),
        r matches Ok(v) ==> floor <= v,
{
    random_from_range(floor, usize::MAX, entropy)
}

/// Draws a position in a collection of `collection_length` elements: a
/// `usize` from zero up to `collection_length - 1`. A collection without
/// elements has no position, and is refused without a read.
pub fn random_index<S: Fn(usize) -> Result<Vec<u8>, EntropyError>>(
    collection_length: usize,
    entropy: &mut Entropy<S>,
) -> (r: Result<usize, RangeError>)
    ensures
        collection_length == 0 ==> *final(entropy) == *old(entropy) && failure(r) == Some(
            RangeFailure::InvalidCollectionLength(0),
        ),
        collection_length == 1 ==> *final(entropy) == *old(entropy) && r == Ok::<
            usize,
            RangeError,
        >(0),
        1 < collection_length ==> final(entropy).drew_once(old(entropy), 4) && r
            == usize_range_from_read(
            0,
            (collection_length - 1) as usize,
            final(entropy).last_read(),
        ),
        r matches Ok(v) ==> v < collection_length,
{
    if collection_length >= 1 {
        random_with_ceiling(collection_length - 1, entropy)
    } else {
        Err(RangeError::InvalidCollectionLength(collection_length))
    }
}

} // verus!
