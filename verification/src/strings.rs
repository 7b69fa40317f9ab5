//! The raw generator for strings of one character.
//!
//! A sample is ten bytes. Each byte is decoded by itself as UTF-8, and the
//! first that decodes is the whole string; the other nine are thrown away.
//! One draw either yields a string or reports that no byte of the sample
//! decoded; drawing again after such a sample, for as long as it takes, is
//! left to the caller.

use crate::error::EntropyError;
use crate::raw::sample;
use crate::source::Entropy;
use vstd::prelude::*;
use vstd::utf8::{decode_utf8, valid_utf8};

verus! {

/// Whether `byte` is a whole UTF-8 text by itself. In UTF-8 the bytes below
/// 0x80 each write one character, and every other byte is a part of a longer
/// sequence.
pub open spec fn decodes_alone(byte: u8) -> bool {
    byte < 0x80
}

/// The first of `bytes` that decodes alone, where there is one.
pub open spec fn first_decodable(bytes: Seq<u8>) -> Option<u8>
    decreases bytes.len(),
{
    if bytes.len() == 0 {
        None
    } else if decodes_alone(bytes[0]) {
        Some(bytes[0])
    } else {
        first_decodable(bytes.drop_first())
    }
}

/// What a read of the source gives where a string of one character is
/// wanted: the failure; or the character that the first byte of the sample
/// which decodes alone writes; or nothing, where none of the ten bytes
/// decodes alone and another sample has to be drawn.
pub open spec fn read_as_text(read: Result<Vec<u8>, EntropyError>) -> Result<
    Option<Seq<char>>,
    EntropyError,
> {
    match sample(read, 10) {
        Err(e) => Err(e),
        Ok(bytes) => match first_decodable(bytes) {
            None => Ok(None),
            Some(byte) => Ok(Some(seq![byte as char])),
        },
    }
}

/// The characters of the string that a result holds, where it holds one.
pub open spec fn text_of(r: Result<Option<String>, EntropyError>) -> Result<
    Option<Seq<char>>,
    EntropyError,
> {
    match r {
        Err(e) => Err(e),
        Ok(None) => Ok(None),
        Ok(Some(text)) => Ok(Some(text@)),
    }
}

/// One byte is valid UTF-8 exactly when it decodes alone, and then it
/// writes the character whose number it is.
pub proof fn lemma_single_byte_utf8(byte: u8)
    ensures
        valid_utf8(seq![byte]) <==> decodes_alone(byte),
        decodes_alone(byte) ==> decode_utf8(seq![byte]) == seq![byte as char],
{
    reveal_with_fuel(valid_utf8, 2);
    reveal_with_fuel(decode_utf8, 2);
    if decodes_alone(byte) {
        assert(byte & 0x7f == byte) by (bit_vector)
            requires
                byte < 0x80,
        ;
    }
}

/// Where no byte before position `i` decodes alone, the first that does is
/// looked for from `i` on.
proof fn lemma_first_decodable_from(bytes: Seq<u8>, i: int)
    requires
        0 <= i <= bytes.len(),
        forall|j: int| 0 <= j < i ==> !decodes_alone(#[trigger] bytes[j]),
    ensures
        first_decodable(bytes) == first_decodable(bytes.skip(i)),
    decreases i,
{
    if i == 0 {
        assert(bytes.skip(0) =~= bytes);
    } else {
        lemma_first_decodable_from(bytes, i - 1);
        assert(bytes.skip(i - 1).drop_first() =~= bytes.skip(i));
    }
}

/// Decodes `bytes` as UTF-8 text.
///
/// Calls `String::from_utf8` of the standard library, which hands the text
/// back where the bytes are valid UTF-8 and an error, here `None`, where
/// they are not. Not proved: that the function accepts exactly the byte
/// sequences that `vstd::utf8::valid_utf8` describes, and that the text then
/// holds the characters that `vstd::utf8::decode_utf8` gives.
#[verifier::external_body]
fn utf8_text(bytes: Vec<u8>) -> (r: Option<String>)
    ensures
        r is Some <==> valid_utf8(bytes@),
        r matches Some(text) ==> text@ == decode_utf8(bytes@),
{
    String::from_utf8(bytes).ok()
}

/// Reads what the source handed back as a string of one character: each of
/// the first ten bytes in turn is decoded by itself as UTF-8, and the first
/// that decodes is the whole string. Where none does the result is
/// `Ok(None)`, and the caller draws again.
pub fn string_from_read(read: Result<Vec<u8>, EntropyError>) -> (r: Result<
    Option<String>,
    EntropyError,
>)
    ensures
        text_of(r) == read_as_text(read),
{
    match read {
        Err(e) => Err(e),
        Ok(bytes) => {
            if bytes.len() < 10 {
                return Err(EntropyError::EntropyExhausted);
            }
            let ghost taken = bytes@.take(10);
            let mut i: usize = 0;
            while i < 10
                invariant
                    i <= 10 <= bytes@.len(),
                    taken == bytes@.take(10),
                    read == Ok::<Vec<u8>, EntropyError>(bytes),
                    forall|j: int| 0 <= j < i ==> !decodes_alone(#[trigger] taken[j]),
                decreases 10 - i,
            {
                let mut single: Vec<u8> = Vec::new();
                single.push(bytes[i]);
                proof {
                    lemma_single_byte_utf8(bytes@[i as int]);
                    lemma_first_decodable_from(taken, i as int);
                }
                if let Some(text) = utf8_text(single) {
                    return Ok(Some(text));
                }
                i = i + 1;
            }
            proof {
                lemma_first_decodable_from(taken, 10);
            }
            Ok(None)
        },
    }
}

/// Draws a string of one character: makes one read of 10 bytes and reads
/// what came back as [`string_from_read`] does.
pub fn draw_string<S: Fn(usize) -> Result<Vec<u8>, EntropyError>>(
    entropy: &mut Entropy<S>,
) -> (r: Result<Option<String>, EntropyError>)
    ensures
        final(entropy).drew_once(old(entropy), 10),
        text_of(r) == read_as_text(final(entropy).last_read()),
{
    string_from_read(entropy.read(10))
}

} // verus!
