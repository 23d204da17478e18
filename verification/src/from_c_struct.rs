//! Records of fixed size, and the Plex: an array of positions followed by an
//! array of such records.

use vstd::prelude::*;
use vstd::slice::slice_subrange;
use crate::error::DecodeError;
use crate::model::{FCPGDOLD, PCD, RgIdOffset};
use crate::wire::{
    be_u16, i32_le_at, le_bytes_of_i32, le_i32, le_u32, lemma_le_i32_of_bytes, u16_be_at,
    u32_le_at,
};

verus! {

/// A record that is decoded from a fixed number of bytes.
pub trait FromCStruct: Sized {
    /// The number of bytes of one record.
    spec fn spec_c_size() -> nat;

    /// The record that `bytes` hold.
    spec fn spec_from_bytes(bytes: Seq<u8>) -> Self;

    /// The number of bytes of one record.
    fn c_size() -> (n: usize)
        ensures
            n == Self::spec_c_size(),
    ;

    /// Decodes the record that `bytes` hold.
    fn from_bytes(bytes: &[u8]) -> (r: Self)
        requires
            bytes@.len() == Self::spec_c_size(),
        ensures
            r == Self::spec_from_bytes(bytes@),
    ;
}

/// A Plex: `rgfc` holds one position more than `rgstruct` holds records, and
/// positions `i` and `i + 1` bound what record `i` describes. The positions
/// are kept as stored; nothing orders them.
#[derive(Debug, PartialEq)]
pub struct PLCF<T: FromCStruct> {
    pub rgfc: Vec<i32>,
    pub rgstruct: Vec<T>,
}

/// The number of records in a Plex block of `len` bytes whose records take
/// `record_size` bytes each.
pub open spec fn plex_record_count(len: nat, record_size: nat) -> int {
    (len - 4) / (4 + record_size as int)
}

/// Whether a block of `len` bytes is one position and then a whole number of
/// positions and records.
pub open spec fn plex_well_formed(len: nat, record_size: nat) -> bool {
    len >= 4 && (len - 4) % (4 + record_size as int) == 0
}

/// The positions stored at the front of the Plex block `s`.
pub open spec fn plex_boundaries(s: Seq<u8>, record_size: nat) -> Seq<i32> {
    Seq::new((plex_record_count(s.len(), record_size) + 1) as nat, |i: int| le_i32(s, 4 * i))
}

/// The bytes of record `i` of the Plex block `s`.
pub open spec fn plex_record_bytes(s: Seq<u8>, record_size: nat, i: int) -> Seq<u8> {
    let n = plex_record_count(s.len(), record_size);
    s.subrange(4 * (n + 1) + i * record_size, 4 * (n + 1) + i * record_size + record_size)
}

/// The block that stores `boundaries` little-endian and then the records
/// whose bytes are `records`, each of `record_size` bytes, in this order.
pub open spec fn plex_block(boundaries: Seq<i32>, records: Seq<Seq<u8>>, record_size: nat) -> Seq<
    u8,
> {
    let head = 4 * boundaries.len() as int;
    Seq::new(
        (head + records.len() * record_size) as nat,
        |j: int|
            if j < head {
                le_bytes_of_i32(boundaries[j / 4])[j % 4]
            } else {
                records[(j - head) / record_size as int][(j - head) % record_size as int]
            },
    )
}

impl<T: FromCStruct> PLCF<T> {
    /// The records stored behind the positions of the Plex block `s`.
    pub open spec fn spec_records(s: Seq<u8>) -> Seq<T> {
        Seq::new(
            plex_record_count(s.len(), T::spec_c_size()) as nat,
            |i: int| T::spec_from_bytes(plex_record_bytes(s, T::spec_c_size(), i)),
        )
    }

    /// Splits a Plex block into its positions and its records. The number of
    /// records follows from the block's length. A block shorter than one
    /// position is cut short; one that is not a whole number of positions and
    /// records is malformed.
    pub fn from_bytes(bytes: &[u8]) -> (r: Result<Self, DecodeError>)
        ensures
            match r {
                Ok(plex) => {
                    &&& plex_well_formed(bytes@.len(), T::spec_c_size())
                    &&& plex.rgstruct@.len() == plex_record_count(bytes@.len(), T::spec_c_size())
                    &&& plex.rgfc@.len() == plex.rgstruct@.len() + 1
                    &&& plex.rgfc@ == plex_boundaries(bytes@, T::spec_c_size())
                    &&& plex.rgstruct@ == Self::spec_records(bytes@)
                },
                Err(e) => {
                    &&& !plex_well_formed(bytes@.len(), T::spec_c_size())
                    &&& e == if bytes@.len() < 4 {
                        DecodeError::UnexpectedEof
                    } else {
                        DecodeError::MalformedPlex
                    }
                },
            },
    {
        let cb: usize = bytes.len();
        if cb < 4 {
            return Err(DecodeError::UnexpectedEof);
        }
        let size: usize = T::c_size();
        let payload: usize = cb - 4;
        if size > payload {
            // Not even one record fits: the block must be the first position alone.
            proof {
                lemma_small_quotient(payload as int, 4 + size as int);
            }
            if payload != 0 {
                return Err(DecodeError::MalformedPlex);
            }
            let mut rgfc: Vec<i32> = Vec::new();
            rgfc.push(i32_le_at(bytes, 0));
            let rgstruct: Vec<T> = Vec::new();
            assert(rgfc@ =~= plex_boundaries(bytes@, T::spec_c_size()));
            assert(rgstruct@ =~= Self::spec_records(bytes@));
            return Ok(PLCF { rgfc, rgstruct });
        }
        let unit: usize = 4 + size;
        if payload % unit != 0 {
            return Err(DecodeError::MalformedPlex);
        }
        let count: usize = payload / unit;
        proof {
            lemma_exact_division(payload as int, unit as int);
        }
        let ghost s = bytes@;
        let ghost c = size as int;

        let mut rgfc: Vec<i32> = Vec::new();
        let mut i: usize = 0;
        while i <= count
            invariant
                i <= count + 1,
                s == bytes@,
                cb == s.len(),
                c == size,
                cb - 4 == count * (4 + c),
                rgfc@.len() == i,
                forall|j: int| 0 <= j < i ==> rgfc@[j] == le_i32(s, 4 * j),
            decreases count + 1 - i,
        {
            assert(4 * i + 4 <= cb) by (nonlinear_arith)
                requires
                    i <= count,
                    cb - 4 == count * (4 + c),
                    c >= 0,
            ;
            rgfc.push(i32_le_at(bytes, 4 * i));
            i = i + 1;
        }
        assert(4 * (count + 1) <= cb) by (nonlinear_arith)
            requires
                cb - 4 == count * (4 + c),
                c >= 0,
                count >= 0,
        ;
        let first: usize = 4 * (count + 1);
        let mut rgstruct: Vec<T> = Vec::new();
        let mut k: usize = 0;
        while k < count
            invariant
                k <= count,
                s == bytes@,
                cb == s.len(),
                c == size,
                c == T::spec_c_size(),
                cb - 4 == count * (4 + c),
                count == plex_record_count(s.len(), T::spec_c_size()),
                first == 4 * (count + 1),
                rgstruct@.len() == k,
                forall|j: int|
                    0 <= j < k ==> rgstruct@[j] == T::spec_from_bytes(
                        plex_record_bytes(s, T::spec_c_size(), j),
                    ),
            decreases count - k,
        {
            assert(first + k * c + c <= cb && k * c >= 0) by (nonlinear_arith)
                requires
                    k < count,
                    first == 4 * (count + 1),
                    cb - 4 == count * (4 + c),
                    c >= 0,
            ;
            let start: usize = first + k * size;
            let record = T::from_bytes(slice_subrange(bytes, start, start + size));
            rgstruct.push(record);
            k = k + 1;
        }
        assert(rgfc@ =~= plex_boundaries(bytes@, T::spec_c_size()));
        assert(rgstruct@ =~= Self::spec_records(bytes@));
        Ok(PLCF { rgfc, rgstruct })
    }
}

/// A dividend smaller than its divisor has quotient zero and is its own
/// remainder.
proof fn lemma_small_quotient(a: int, d: int)
    requires
        0 <= a < d,
    ensures
        a / d == 0,
        a % d == a,
{
    vstd::arithmetic::div_mod::lemma_basic_div(a, d);
    vstd::arithmetic::div_mod::lemma_small_mod(a as nat, d as nat);
}

/// A dividend with remainder zero is the product of quotient and divisor.
proof fn lemma_exact_division(a: int, d: int)
    requires
        0 <= a,
        0 < d,
        a % d == 0,
    ensures
        a == (a / d) * d,
        0 <= a / d,
{
    vstd::arithmetic::div_mod::lemma_fundamental_div_mod(a, d);
    vstd::arithmetic::div_mod::lemma_div_pos_is_pos(a, d);
    assert(d * (a / d) == (a / d) * d) by (nonlinear_arith);
}

/// Law: a block that stores `n + 1` positions and `n` records is a
/// well-formed Plex block of `n` records, and decoding it gives back the
/// positions and the records that its bytes hold.
pub proof fn lemma_plex_round_trip<T: FromCStruct>(boundaries: Seq<i32>, records: Seq<Seq<u8>>)
    requires
        boundaries.len() == records.len() + 1,
        forall|i: int| 0 <= i < records.len() ==> (#[trigger] records[i]).len() == T::spec_c_size(),
    ensures
        plex_well_formed(plex_block(boundaries, records, T::spec_c_size()).len(), T::spec_c_size()),
        plex_record_count(
            plex_block(boundaries, records, T::spec_c_size()).len(),
            T::spec_c_size(),
        ) == records.len(),
        plex_boundaries(plex_block(boundaries, records, T::spec_c_size()), T::spec_c_size())
            == boundaries,
        PLCF::<T>::spec_records(plex_block(boundaries, records, T::spec_c_size()))
            == records.map_values(|b: Seq<u8>| T::spec_from_bytes(b)),
{
    let c = T::spec_c_size() as int;
    let n = records.len() as int;
    let block = plex_block(boundaries, records, T::spec_c_size());
    let head = 4 * (n + 1);
    assert(block.len() == head + n * c);
    assert(n * c >= 0) by (nonlinear_arith)
        requires
            n >= 0,
            c >= 0,
    ;
    assert(block.len() - 4 == n * (4 + c)) by (nonlinear_arith)
        requires
            block.len() == 4 * (n + 1) + n * c,
    ;
    vstd::arithmetic::div_mod::lemma_fundamental_div_mod_converse(block.len() - 4, 4 + c, n, 0);
    assert(plex_record_count(block.len(), T::spec_c_size()) == n);

    assert forall|i: int| 0 <= i < n + 1 implies le_i32(block, 4 * i) == boundaries[i] by {
        lemma_le_i32_of_bytes(boundaries[i]);
        let stored = le_bytes_of_i32(boundaries[i]);
        assert(block[4 * i] == stored[0]);
        assert(block[4 * i + 1] == stored[1]);
        assert(block[4 * i + 2] == stored[2]);
        assert(block[4 * i + 3] == stored[3]);
    }
    assert(plex_boundaries(block, T::spec_c_size()) =~= boundaries);

    assert forall|i: int| 0 <= i < n implies plex_record_bytes(block, T::spec_c_size(), i)
        == records[i] by {
        let part = plex_record_bytes(block, T::spec_c_size(), i);
        assert(0 <= i * c && i * c + c <= n * c) by (nonlinear_arith)
            requires
                0 <= i < n,
                c >= 0,
        ;
        assert(part.len() == c);
        assert forall|k: int| 0 <= k < c implies part[k] == records[i][k] by {
            vstd::arithmetic::div_mod::lemma_fundamental_div_mod_converse(i * c + k, c, i, k);
            assert(part[k] == block[head + i * c + k]);
        }
        assert(part =~= records[i]);
    }
    assert(PLCF::<T>::spec_records(block) =~= records.map_values(
        |b: Seq<u8>| T::spec_from_bytes(b),
    ));
}

impl FromCStruct for FCPGDOLD {
    open spec fn spec_c_size() -> nat {
        16
    }

    open spec fn spec_from_bytes(bytes: Seq<u8>) -> Self {
        FCPGDOLD {
            fcPgd: le_i32(bytes, 0),
            lcbPgd: le_u32(bytes, 4),
            fcBkd: le_i32(bytes, 8),
            lcbBkd: le_u32(bytes, 12),
        }
    }

    fn c_size() -> (n: usize) {
        16
    }

    fn from_bytes(bytes: &[u8]) -> (r: Self) {
        FCPGDOLD {
            fcPgd: i32_le_at(bytes, 0),
            lcbPgd: u32_le_at(bytes, 4),
            fcBkd: i32_le_at(bytes, 8),
            lcbBkd: u32_le_at(bytes, 12),
        }
    }
}

impl FromCStruct for PCD {
    open spec fn spec_c_size() -> nat {
        8
    }

    open spec fn spec_from_bytes(bytes: Seq<u8>) -> Self {
        let bitfield = be_u16(bytes, 0);
        PCD {
            fNoParaLast: bitfield & 0x8000 == 0x8000,
            rest_of_bitfield: [bitfield & 0x4000 == 0x4000, bitfield & 0x2000 == 0x2000, false],
            fn_val: bitfield & 0x0FFF,
            fc: le_i32(bytes, 2),
            prm: be_u16(bytes, 6),
        }
    }

    fn c_size() -> (n: usize) {
        8
    }

    fn from_bytes(bytes: &[u8]) -> (r: Self) {
        let bitfield: u16 = u16_be_at(bytes, 0);
        PCD {
            fNoParaLast: (bitfield & 0x8000) == 0x8000,
            rest_of_bitfield: [(bitfield & 0x4000) == 0x4000, (bitfield & 0x2000) == 0x2000, false],
            fn_val: bitfield & 0x0FFF,
            fc: i32_le_at(bytes, 2),
            prm: u16_be_at(bytes, 6),
        }
    }
}

impl FromCStruct for RgIdOffset {
    open spec fn spec_c_size() -> nat {
        20
    }

    open spec fn spec_from_bytes(bytes: Seq<u8>) -> Self {
        RgIdOffset {
            formatID: [
                bytes[0],
                bytes[1],
                bytes[2],
                bytes[3],
                bytes[4],
                bytes[5],
                bytes[6],
                bytes[7],
                bytes[8],
                bytes[9],
                bytes[10],
                bytes[11],
                bytes[12],
                bytes[13],
                bytes[14],
                bytes[15],
            ],
            sectionOffset: le_u32(bytes, 16),
        }
    }

    fn c_size() -> (n: usize) {
        20
    }

    fn from_bytes(bytes: &[u8]) -> (r: Self) {
        RgIdOffset {
            formatID: [
                bytes[0],
                bytes[1],
                bytes[2],
                bytes[3],
                bytes[4],
                bytes[5],
                bytes[6],
                bytes[7],
                bytes[8],
                bytes[9],
                bytes[10],
                bytes[11],
                bytes[12],
                bytes[13],
                bytes[14],
                bytes[15],
            ],
            sectionOffset: u32_le_at(bytes, 16),
        }
    }
}

} // verus!
