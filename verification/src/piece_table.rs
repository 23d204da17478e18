//! The piece table: a tag byte, the length of a Plex block, and the block.

use vstd::prelude::*;
use crate::error::DecodeError;
use crate::from_c_struct::{plex_boundaries, plex_well_formed, FromCStruct, PLCF};
use crate::from_reader::FromReader;
use crate::model::PCD;
use crate::subreader::SubReader;
use crate::wire::{fits, le_u32};

verus! {

/// The tag byte of the piece table. Any other first byte starts a layout
/// that is not decoded.
pub const PIECE_TABLE_TAG: u8 = 2;

/// The Plex block of the piece table that starts at `at`.
pub open spec fn piece_table_block(s: Seq<u8>, at: int) -> Seq<u8> {
    s.subrange(at + 5, at + 5 + le_u32(s, at + 1))
}

impl FromReader for PLCF<PCD> {
    /// A piece table is its tag byte, the 32-bit length of a Plex block, and a
    /// block of that many bytes. A first byte other than the tag starts a
    /// layout that is not decoded.
    open spec fn extent(s: Seq<u8>, base: int, at: int) -> Result<int, DecodeError> {
        if !fits(s, at, 1) {
            Err(DecodeError::UnexpectedEof)
        } else if s[at] != PIECE_TABLE_TAG {
            Err(DecodeError::UnsupportedVariant)
        } else if !fits(s, at + 1, 4) {
            Err(DecodeError::UnexpectedEof)
        } else if !fits(s, at + 5, le_u32(s, at + 1) as int) {
            Err(DecodeError::UnexpectedEof)
        } else if le_u32(s, at + 1) < 4 {
            Err(DecodeError::UnexpectedEof)
        } else if !plex_well_formed(le_u32(s, at + 1) as nat, PCD::spec_c_size()) {
            Err(DecodeError::MalformedPlex)
        } else {
            Ok(at + 5 + le_u32(s, at + 1))
        }
    }

    /// The positions and records are those of the block.
    open spec fn decoded(&self, s: Seq<u8>, base: int, at: int) -> bool {
        &&& self.rgfc@ == plex_boundaries(piece_table_block(s, at), PCD::spec_c_size())
        &&& self.rgstruct@ == PLCF::<PCD>::spec_records(piece_table_block(s, at))
    }

    fn from_reader(reader: &mut SubReader<'_>) -> (r: Result<Self, DecodeError>) {
        let first_byte: u8 = reader.read_u8()?;
        if first_byte != PIECE_TABLE_TAG {
            return Err(DecodeError::UnsupportedVariant);
        }
        let lcb: u32 = reader.read_u32_le()?;
        let block: &[u8] = reader.take(lcb as usize)?;
        PLCF::<PCD>::from_bytes(block)
    }
}

} // verus!
