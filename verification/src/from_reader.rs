//! Structures that are decoded by reading a stream front to back.

use vstd::prelude::*;
use crate::error::DecodeError;
use crate::subreader::SubReader;

verus! {

/// A structure that is decoded from a reader. What a stream decodes to is
/// stated by two functions of the stream's bytes `s`, the reader's origin
/// `base` and the place `at` where reading starts: `extent` says where the
/// structure ends or why there is none, `decoded` says of a value that it is
/// the structure.
pub trait FromReader: Sized {
    /// Where the structure that starts at `at` ends, or why decoding fails.
    spec fn extent(s: Seq<u8>, base: int, at: int) -> Result<int, DecodeError>;

    /// Whether `self` is the structure that the bytes hold at `at`.
    spec fn decoded(&self, s: Seq<u8>, base: int, at: int) -> bool;

    /// Decodes the structure at the reader's position and leaves the reader
    /// behind it.
    fn from_reader(reader: &mut SubReader<'_>) -> (r: Result<Self, DecodeError>)
        ensures
            final(reader).stream() == old(reader).stream(),
            final(reader).base() == old(reader).base(),
            match Self::extent(
                old(reader).stream(),
                old(reader).base() as int,
                old(reader).pos() as int,
            ) {
                Ok(end) => r matches Ok(v) && v.decoded(
                    old(reader).stream(),
                    old(reader).base() as int,
                    old(reader).pos() as int,
                ) && final(reader).pos() == end,
                Err(e) => r == Err::<Self, DecodeError>(e),
            },
    ;
}

} // verus!
