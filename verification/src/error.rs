//! The failures that the library reports.

use crate::decimal::{decimal, decimal_string};
use vstd::prelude::*;

verus! {

/// Why the entropy source delivered no sample.
#[derive(Clone, Copy, Debug, PartialEq, Eq, Structural)]
pub enum EntropyError {
    /// The source could not be opened at all.
    EntropySourceUnavailable,
    /// The source was opened but yielded fewer bytes than were asked for.
    EntropyExhausted,
}

/// Why a range operation produced no value.
#[derive(Debug, PartialEq, Eq)]
pub enum RangeError {
    /// The raw generator failed; its failure is handed on unchanged.
    Entropy(EntropyError),
    /// The start of the range lies above its end. Carries the decimal
    /// numerals of the start and of the end, in that order.
    InvalidRange(String, String),
    /// An index was asked for a collection without elements. Carries the
    /// length that was given.
    InvalidCollectionLength(usize),
}

/// What a [`RangeError`] stands for, with texts as character sequences.
pub enum RangeFailure {
    Entropy(EntropyError),
    InvalidRange(Seq<char>, Seq<char>),
    InvalidCollectionLength(nat),
}

impl View for RangeError {
    type V = RangeFailure;

    open spec fn view(&self) -> RangeFailure {
        match self {
            RangeError::Entropy(e) => RangeFailure::Entropy(*e),
            RangeError::InvalidRange(start, end) => RangeFailure::InvalidRange(start@, end@),
            RangeError::InvalidCollectionLength(n) => RangeFailure::InvalidCollectionLength(
                *n as nat,
            ),
        }
    }
}

/// The failure that a result carries, where it carries one.
pub open spec fn failure<T>(r: Result<T, RangeError>) -> Option<RangeFailure> {
    match r {
        Ok(_) => None,
        Err(e) => Some(e@),
    }
}

impl EntropyError {
    /// The sentence that describes the failure.
    pub open spec fn message_text(self) -> Seq<char> {
        match self {
            EntropyError::EntropySourceUnavailable => "the entropy source could not be opened"@,
            EntropyError::EntropyExhausted => "the entropy source yielded too few bytes"@,
        }
    }

    /// Describes the failure in a sentence.
    pub fn message(&self) -> (text: String)
        ensures
            text@ == self.message_text(),
    {
        match self {
            EntropyError::EntropySourceUnavailable => String::from_str(
                "the entropy source could not be opened",
            ),
            EntropyError::EntropyExhausted => String::from_str(
                "the entropy source yielded too few bytes",
            ),
        }
    }
}

impl RangeFailure {
    /// The sentence that describes the failure. That of a refused range
    /// names both of its bounds.
    pub open spec fn message_text(self) -> Seq<char> {
        match self {
            RangeFailure::Entropy(e) => e.message_text(),
            RangeFailure::InvalidRange(start, end) => "Start '"@ + start
                + "' is larger than end '"@ + end + "'!"@,
            RangeFailure::InvalidCollectionLength(n) => "collection length '"@ + decimal(n)
                + "' is less than 1!"@,
        }
    }
}

impl RangeError {
    /// Describes the failure in a sentence.
    pub fn message(&self) -> (text: String)
        ensures
            text@ == self@.message_text(),
    {
        match self {
            RangeError::Entropy(e) => e.message(),
            RangeError::InvalidRange(start, end) => {
                let mut text = String::from_str("Start '");
                text.append(start.as_str());
                text.append("' is larger than end '");
                text.append(end.as_str());
                text.append("'!");
                text
            },
            RangeError::InvalidCollectionLength(n) => {
                let mut text = String::from_str("collection length '");
                text.append(decimal_string(*n as u64).as_str());
                text.append("' is less than 1!");
                text
            },
        }
    }
}

impl Clone for RangeError {
    fn clone(&self) -> (copy: Self)
        ensures
            copy == *self,
    {
        match self {
            RangeError::Entropy(e) => RangeError::Entropy(*e),
            RangeError::InvalidRange(start, end) => RangeError::InvalidRange(
                start.clone(),
                end.clone(),
            ),
            RangeError::InvalidCollectionLength(n) => RangeError::InvalidCollectionLength(*n),
        }
    }
}

} // verus!
