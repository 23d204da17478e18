//! Why a decode can fail.

use vstd::prelude::*;

verus! {

/// The ways in which decoding a structure fails.
#[derive(Clone, Copy, Debug, PartialEq, Eq, Structural)]
pub enum DecodeError {
    /// The bytes end before a fixed or declared field does.
    UnexpectedEof,
    /// A tag or flag selects a layout that this decoder does not implement.
    UnsupportedVariant,
    /// The length of a Plex block is not a whole number of boundaries and records.
    MalformedPlex,
    /// Declared lengths, counts or identifiers contradict each other.
    MalformedLayout,
    /// A string field does not hold well-formed text.
    InvalidText,
}

impl DecodeError {
    /// A short name of the failure, for messages.
    pub fn name(&self) -> (r: &'static str)
        ensures
            r@ == match *self {
                DecodeError::UnexpectedEof => "UnexpectedEof"@,
                DecodeError::UnsupportedVariant => "UnsupportedVariant"@,
                DecodeError::MalformedPlex => "MalformedPlex"@,
                DecodeError::MalformedLayout => "MalformedLayout"@,
                DecodeError::InvalidText => "InvalidText"@,
            },
    {
        match self {
            DecodeError::UnexpectedEof => "UnexpectedEof",
            DecodeError::UnsupportedVariant => "UnsupportedVariant",
            DecodeError::MalformedPlex => "MalformedPlex",
            DecodeError::MalformedLayout => "MalformedLayout",
            DecodeError::InvalidText => "InvalidText",
        }
    }
}

} // verus!
