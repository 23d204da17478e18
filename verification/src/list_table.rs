//! The list table: a count, that many list headers, and then the levels of
//! each list in turn.

use vstd::prelude::*;
use crate::error::DecodeError;
use crate::from_reader::FromReader;
use crate::model::{LST, LSTF, LSTs, LVL, LVLF};
use crate::subreader::SubReader;
use crate::text::{string_from_utf16, utf16_text};
use crate::wire::{
    after_items, be_units, fits, i32_le_at, le_i32, le_u16, lemma_after_items_failed, u16_le_at,
};

verus! {

/// The number of bytes of a list header.
pub const LSTF_SIZE: usize = 28;

/// The number of bytes of the fixed part of a level.
pub const LVLF_SIZE: usize = 28;

/// The list header stored at `p`.
pub open spec fn lstf_at(s: Seq<u8>, p: int) -> LSTF {
    LSTF {
        lsid: le_i32(s, p),
        tplc: le_i32(s, p + 4),
        rgistd: [
            le_u16(s, p + 8),
            le_u16(s, p + 10),
            le_u16(s, p + 12),
            le_u16(s, p + 14),
            le_u16(s, p + 16),
            le_u16(s, p + 18),
            le_u16(s, p + 20),
            le_u16(s, p + 22),
            le_u16(s, p + 24),
        ],
        flagfield: s[p + 26],
        compat_flags: s[p + 27],
    }
}

/// The fixed part of the level stored at `p`.
pub open spec fn lvlf_at(s: Seq<u8>, p: int) -> LVLF {
    LVLF {
        iStartAt: le_i32(s, p),
        nfc: s[p + 4],
        jc: (s[p + 5] & 0xC0) >> 6,
        fLegal: s[p + 5] & 0x20 == 0x20,
        fNoRestart: s[p + 5] & 0x10 == 0x10,
        fPrev: s[p + 5] & 0x08 == 0x08,
        fPrevSpace: s[p + 5] & 0x04 == 0x04,
        fWord6: s[p + 5] & 0x02 == 0x02,
        rgbxchNums: [
            s[p + 6],
            s[p + 7],
            s[p + 8],
            s[p + 9],
            s[p + 10],
            s[p + 11],
            s[p + 12],
            s[p + 13],
            s[p + 14],
        ],
        ixchFollow: s[p + 15],
        dxaSpace: le_i32(s, p + 16),
        dxaIndent: le_i32(s, p + 20),
        cbGrpprlPapx: s[p + 24],
        cbGrpprlChpx: s[p + 25],
        ilvlRestartLim: s[p + 26],
        grfhic: s[p + 27],
    }
}

/// Where the numbering text of the level at `p` starts: behind the fixed
/// part, the two property blobs and the 16-bit length of the text.
pub open spec fn level_text_start(s: Seq<u8>, p: int) -> int {
    p + LVLF_SIZE + s[p + 24] + s[p + 25] + 2
}

/// The 16-bit units of the numbering text of the level at `p`.
pub open spec fn level_text_units(s: Seq<u8>, p: int) -> Seq<u16> {
    be_units(s, level_text_start(s, p), le_u16(s, level_text_start(s, p) - 2) as nat)
}

/// Where the level after the one at `p` starts.
pub open spec fn level_step(s: Seq<u8>) -> spec_fn(int, int) -> Result<int, DecodeError> {
    |j: int, p: int|
        if !fits(s, p, LVLF_SIZE as int) {
            Err(DecodeError::UnexpectedEof)
        } else if !fits(s, p + LVLF_SIZE, s[p + 24] + s[p + 25] + 2) {
            Err(DecodeError::UnexpectedEof)
        } else if !fits(s, level_text_start(s, p), 2 * le_u16(s, level_text_start(s, p) - 2)) {
            Err(DecodeError::UnexpectedEof)
        } else if utf16_text(level_text_units(s, p)) is None {
            Err(DecodeError::InvalidText)
        } else {
            Ok(level_text_start(s, p) + 2 * le_u16(s, level_text_start(s, p) - 2))
        }
}

/// Whether `level` is the level stored at `p`.
pub open spec fn level_decoded(level: LVL, s: Seq<u8>, p: int) -> bool {
    &&& level.lvlf == lvlf_at(s, p)
    &&& level.grpprlPapx@ == s.subrange(p + LVLF_SIZE, p + LVLF_SIZE + s[p + 24])
    &&& level.grpprlChpx@ == s.subrange(
        p + LVLF_SIZE + s[p + 24],
        p + LVLF_SIZE + s[p + 24] + s[p + 25],
    )
    &&& Some(level.nubmer_text@) == utf16_text(level_text_units(s, p))
}

/// Whether `levels[j]` is the `j`-th of the levels stored from `p` on.
pub open spec fn level_matches(levels: Seq<LVL>, s: Seq<u8>, p: int, j: int) -> bool {
    after_items(level_step(s), p, j as nat) matches Ok(q) && level_decoded(levels[j], s, q)
}

/// Whether `levels` are the `count` levels stored from `p` on.
pub open spec fn levels_decoded(levels: Seq<LVL>, s: Seq<u8>, p: int, count: nat) -> bool {
    &&& levels.len() == count
    &&& forall|j: int| 0 <= j < count ==> #[trigger] level_matches(levels, s, p, j)
}

/// The number of levels that follow for a list with header `lstf`: one for a
/// simple list, nine for any other.
pub open spec fn level_count(lstf: LSTF) -> nat {
    if lstf.simple_list() {
        1
    } else {
        9
    }
}

/// Where the header of list `i` of the list table at `at` is stored.
pub open spec fn lstf_place(at: int, i: int) -> int {
    at + 2 + LSTF_SIZE * i
}

/// Where the levels of the first list of the list table at `at` start:
/// behind the count and all list headers.
pub open spec fn first_level_place(s: Seq<u8>, at: int) -> int {
    at + 2 + LSTF_SIZE * le_u16(s, at)
}

/// Where the levels of the list after list `i` start, when those of list `i`
/// start at `p`.
pub open spec fn list_step(s: Seq<u8>, at: int) -> spec_fn(int, int) -> Result<int, DecodeError> {
    |i: int, p: int| after_items(level_step(s), p, level_count(lstf_at(s, lstf_place(at, i))))
}

/// Whether `lists[i]` is list `i` of the list table at `at`: its header is
/// the `i`-th header, and its levels are those stored behind the levels of
/// the lists before it, one level for a simple list and nine for any other.
pub open spec fn list_matches(lists: Seq<LST>, s: Seq<u8>, at: int, i: int) -> bool {
    &&& lists[i].lstf == lstf_at(s, lstf_place(at, i))
    &&& after_items(list_step(s, at), first_level_place(s, at), i as nat) matches Ok(p)
        && levels_decoded(lists[i].level_styles@, s, p, level_count(lists[i].lstf))
}

/// Decodes the list header at the reader's position.
fn read_lstf(reader: &mut SubReader<'_>) -> (r: Result<LSTF, DecodeError>)
    ensures
        match r {
            Ok(v) => final(reader).read(old(reader), LSTF_SIZE as int) && v == lstf_at(
                old(reader).stream(),
                old(reader).pos() as int,
            ),
            Err(e) => final(reader).cut_short(old(reader), LSTF_SIZE as int, e),
        },
{
    let b: &[u8] = reader.take(LSTF_SIZE)?;
    Ok(
        LSTF {
            lsid: i32_le_at(b, 0),
            tplc: i32_le_at(b, 4),
            rgistd: [
                u16_le_at(b, 8),
                u16_le_at(b, 10),
                u16_le_at(b, 12),
                u16_le_at(b, 14),
                u16_le_at(b, 16),
                u16_le_at(b, 18),
                u16_le_at(b, 20),
                u16_le_at(b, 22),
                u16_le_at(b, 24),
            ],
            flagfield: b[26],
            compat_flags: b[27],
        },
    )
}

/// Decodes the level at the reader's position.
#[allow(non_snake_case)]
fn read_level(reader: &mut SubReader<'_>) -> (r: Result<LVL, DecodeError>)
    ensures
        final(reader).stream() == old(reader).stream(),
        final(reader).base() == old(reader).base(),
        match level_step(old(reader).stream())(0, old(reader).pos() as int) {
            Ok(end) => r matches Ok(level) && level_decoded(
                level,
                old(reader).stream(),
                old(reader).pos() as int,
            ) && final(reader).pos() == end,
            Err(e) => r == Err::<LVL, DecodeError>(e),
        },
{
    let ghost s = reader.stream();
    let ghost p = reader.pos() as int;
    let b: &[u8] = reader.take(LVLF_SIZE)?;
    let bitfield: u8 = b[5];
    assert((bitfield & 0xC0) >> 6 <= 3) by (bit_vector);
    let lvlf = LVLF {
        iStartAt: i32_le_at(b, 0),
        nfc: b[4],
        jc: (bitfield & 0xC0) >> 6,
        fLegal: (bitfield & 0x20) == 0x20,
        fNoRestart: (bitfield & 0x10) == 0x10,
        fPrev: (bitfield & 0x08) == 0x08,
        fPrevSpace: (bitfield & 0x04) == 0x04,
        fWord6: (bitfield & 0x02) == 0x02,
        rgbxchNums: [b[6], b[7], b[8], b[9], b[10], b[11], b[12], b[13], b[14]],
        ixchFollow: b[15],
        dxaSpace: i32_le_at(b, 16),
        dxaIndent: i32_le_at(b, 20),
        cbGrpprlPapx: b[24],
        cbGrpprlChpx: b[25],
        ilvlRestartLim: b[26],
        grfhic: b[27],
    };
    assert(lvlf == lvlf_at(s, p));
    let grpprlPapx: Vec<u8> = reader.read_exact(lvlf.cbGrpprlPapx as usize)?;
    let grpprlChpx: Vec<u8> = reader.read_exact(lvlf.cbGrpprlChpx as usize)?;
    let length: u16 = reader.read_u16_le()?;
    let name_buffer: Vec<u16> = reader.read_u16_into_be(length as usize)?;
    let nubmer_text: String = match string_from_utf16(name_buffer.as_slice()) {
        Some(text) => text,
        None => {
            return Err(DecodeError::InvalidText);
        },
    };
    Ok(LVL { lvlf, grpprlChpx, grpprlPapx, nubmer_text })
}

/// Decodes `count` levels from the reader's position on.
#[verifier::loop_isolation(false)]
fn read_levels(reader: &mut SubReader<'_>, count: usize) -> (r: Result<Vec<LVL>, DecodeError>)
    ensures
        final(reader).stream() == old(reader).stream(),
        final(reader).base() == old(reader).base(),
        match after_items(level_step(old(reader).stream()), old(reader).pos() as int, count as nat) {
            Ok(end) => r matches Ok(levels) && levels_decoded(
                levels@,
                old(reader).stream(),
                old(reader).pos() as int,
                count as nat,
            ) && final(reader).pos() == end,
            Err(e) => r == Err::<Vec<LVL>, DecodeError>(e),
        },
{
    let ghost s = reader.stream();
    let ghost p = reader.pos() as int;
    let ghost step = level_step(s);
    let mut levels: Vec<LVL> = Vec::new();
    let mut j: usize = 0;
    while j < count
        invariant
            j <= count,
            reader.stream() == s,
            reader.base() == old(reader).base(),
            after_items(step, p, j as nat) == Ok::<int, DecodeError>(reader.pos() as int),
            levels@.len() == j,
            forall|k: int| 0 <= k < j ==> #[trigger] level_matches(levels@, s, p, k),
        decreases count - j,
    {
        let ghost q = reader.pos() as int;
        let ghost before = levels@;
        proof {
            assert(after_items(step, p, (j + 1) as nat) == step(j as int, q));
            assert(step(j as int, q) == step(0, q));
            if step(j as int, q) is Err {
                lemma_after_items_failed(step, p, (j + 1) as nat, count as nat);
            }
        }
        let level: LVL = read_level(reader)?;
        levels.push(level);
        assert forall|k: int| 0 <= k < j + 1 implies #[trigger] level_matches(levels@, s, p, k) by {
            if k < j {
                assert(level_matches(before, s, p, k));
                assert(levels@[k] == before[k]);
            }
        }
        j = j + 1;
    }
    Ok(levels)
}

impl FromReader for LSTs {
    /// A list table is a 16-bit count, that many list headers, and then the
    /// levels of each list in the order of the headers.
    open spec fn extent(s: Seq<u8>, base: int, at: int) -> Result<int, DecodeError> {
        if !fits(s, at, 2) {
            Err(DecodeError::UnexpectedEof)
        } else if !fits(s, at + 2, LSTF_SIZE * le_u16(s, at)) {
            Err(DecodeError::UnexpectedEof)
        } else {
            after_items(list_step(s, at), first_level_place(s, at), le_u16(s, at) as nat)
        }
    }

    /// There is one list for each that the count declares, and list `i` has
    /// the `i`-th header and the levels stored for it.
    open spec fn decoded(&self, s: Seq<u8>, base: int, at: int) -> bool {
        &&& self.num_LSTs == le_u16(s, at)
        &&& self.LSTs@.len() == self.num_LSTs
        &&& forall|i: int| 0 <= i < self.LSTs@.len() ==> #[trigger] list_matches(self.LSTs@, s, at, i)
    }

    #[verifier::loop_isolation(false)]
    fn from_reader(reader: &mut SubReader<'_>) -> (r: Result<Self, DecodeError>) {
        let ghost s = reader.stream();
        let ghost at = reader.pos() as int;
        let num_ltss: u16 = reader.read_u16_le()?;
        let mut headers: Vec<LSTF> = Vec::new();
        let mut i: u16 = 0;
        while i < num_ltss
            invariant
                i <= num_ltss,
                reader.stream() == s,
                reader.base() == old(reader).base(),
                reader.pos() == lstf_place(at, i as int),
                fits(s, at + 2, LSTF_SIZE * i),
                headers@.len() == i,
                forall|k: int| 0 <= k < i ==> #[trigger] headers@[k] == lstf_at(s, lstf_place(at, k)),
            decreases num_ltss - i,
        {
            let header: LSTF = read_lstf(reader)?;
            headers.push(header);
            i = i + 1;
        }
        let ghost step = list_step(s, at);
        let ghost first = first_level_place(s, at);
        let mut lsts: Vec<LST> = Vec::new();
        let mut i: usize = 0;
        while i < headers.len()
            invariant
                i <= headers@.len(),
                reader.stream() == s,
                reader.base() == old(reader).base(),
                after_items(step, first, i as nat) == Ok::<int, DecodeError>(reader.pos() as int),
                lsts@.len() == i,
                forall|k: int| 0 <= k < i ==> #[trigger] list_matches(lsts@, s, at, k),
            decreases headers@.len() - i,
        {
            let ghost p = reader.pos() as int;
            let ghost before = lsts@;
            let lstf: LSTF = headers[i];
            let num_lvlf: usize = if lstf.fSimpleList() {
                1
            } else {
                9
            };
            proof {
                assert(lstf == lstf_at(s, lstf_place(at, i as int)));
                assert(step(i as int, p) == after_items(level_step(s), p, num_lvlf as nat));
                assert(after_items(step, first, (i + 1) as nat) == step(i as int, p));
                if step(i as int, p) is Err {
                    lemma_after_items_failed(step, first, (i + 1) as nat, num_ltss as nat);
                }
            }
            let level_styles: Vec<LVL> = read_levels(reader, num_lvlf)?;
            lsts.push(LST { lstf, level_styles });
            assert forall|k: int| 0 <= k < i + 1 implies #[trigger] list_matches(lsts@, s, at, k) by {
                if k < i {
                    assert(list_matches(before, s, at, k));
                    assert(lsts@[k] == before[k]);
                }
            }
            i = i + 1;
        }
        Ok(LSTs { num_LSTs: num_ltss, LSTs: lsts })
    }
}

/// Law: a list of a decoded list table has exactly one level where its
/// header says that it is a simple list, and exactly nine where it does not.
pub proof fn lemma_levels_of_a_list(lists: LSTs, s: Seq<u8>, base: int, at: int, i: int)
    requires
        lists.decoded(s, base, at),
        0 <= i < lists.LSTs@.len(),
    ensures
        lists.LSTs@[i].lstf == lstf_at(s, lstf_place(at, i)),
        lists.LSTs@[i].level_styles@.len() == if lists.LSTs@[i].lstf.simple_list() {
            1nat
        } else {
            9nat
        },
{
    assert(list_matches(lists.LSTs@, s, at, i));
}

} // verus!
