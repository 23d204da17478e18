//! The style sheet: a header of declared length, then one record of declared
//! length for each style.

use vstd::prelude::*;
use crate::error::DecodeError;
use crate::from_reader::FromReader;
use crate::model::{SHSHI, STD};
use crate::subreader::SubReader;
use crate::text::{string_from_utf16, utf16_text};
use crate::wire::{
    after_items, be_units, fits, le_i32, le_u16, lemma_after_items_failed,
    lemma_after_items_prefix,
};

verus! {

/// The number of bytes of a style record before the length of its name.
pub const STD_FIXED_SIZE: usize = 18;

/// The number of bytes that the header of the style sheet must at least hold.
pub const STSHI_FIXED_SIZE: usize = 12;

impl FromReader for STD {
    /// A style record ends behind the 16-bit unit that terminates its name.
    /// The name is stored as a count of one byte and that many big-endian
    /// units.
    open spec fn extent(s: Seq<u8>, base: int, at: int) -> Result<int, DecodeError> {
        if !fits(s, at, STD_FIXED_SIZE + 1) {
            Err(DecodeError::UnexpectedEof)
        } else {
            let n = s[at + 18] as nat;
            if !fits(s, at, STD_FIXED_SIZE + 1 + 2 * n + 2) {
                Err(DecodeError::UnexpectedEof)
            } else if utf16_text(be_units(s, at + 19, n)) is None {
                Err(DecodeError::InvalidText)
            } else {
                Ok(at + STD_FIXED_SIZE + 1 + 2 * n + 2)
            }
        }
    }

    /// Six of the words of the fixed part are bit fields; the bits that no
    /// field names are dropped.
    open spec fn decoded(&self, s: Seq<u8>, base: int, at: int) -> bool {
        &&& self.sti == le_u16(s, at) & 0x0FFF
        &&& self.fScratch == (le_u16(s, at) & 0x8000 == 0x8000)
        &&& self.fInvalHeight == (le_u16(s, at) & 0x4000 == 0x4000)
        &&& self.fHasUpe == (le_u16(s, at) & 0x2000 == 0x2000)
        &&& self.fMassCopy == (le_u16(s, at) & 0x1000 == 0x1000)
        &&& self.stk == le_u16(s, at + 2) & 0xF000
        &&& self.istdBase == le_u16(s, at + 2) & 0x0FFF
        &&& self.cupx == le_u16(s, at + 4) & 0xF000
        &&& self.istdNext == le_u16(s, at + 4) & 0x0FFF
        &&& self.bchUpe == le_u16(s, at + 6)
        &&& self.fAutoRedef == (le_u16(s, at + 8) & 0x8000 == 0x8000)
        &&& self.fHidden == (le_u16(s, at + 8) & 0x4000 == 0x4000)
        &&& self.f97LidsSet == (le_u16(s, at + 8) & 0x2000 == 0x2000)
        &&& self.fCopyLang == (le_u16(s, at + 8) & 0x1000 == 0x1000)
        &&& self.fPersonalCompose == (le_u16(s, at + 8) & 0x0800 == 0x0800)
        &&& self.fPersonalReply == (le_u16(s, at + 8) & 0x0400 == 0x0400)
        &&& self.fPersonal == (le_u16(s, at + 8) & 0x0200 == 0x0200)
        &&& self.fNoHtmlExport == (le_u16(s, at + 8) & 0x0100 == 0x0100)
        &&& self.fSemiHidden == (le_u16(s, at + 8) & 0x0080 == 0x0080)
        &&& self.fLocked == (le_u16(s, at + 8) & 0x0040 == 0x0040)
        &&& self.fInternalUse == (le_u16(s, at + 8) & 0x0020 == 0x0020)
        &&& self.unused_bits == 0
        &&& self.istdLink == le_u16(s, at + 10) & 0x0FFF
        &&& self.fSpare == le_u16(s, at + 10) & 0xF000
        &&& self.rsid == le_i32(s, at + 12)
        &&& self.iftcHtml == le_u16(s, at + 16) & 0x0007
        &&& self.unused == 0
        &&& Some(self.xstzName@) == utf16_text(be_units(s, at + 19, s[at + 18] as nat))
    }

    #[allow(non_snake_case)]
    fn from_reader(reader: &mut SubReader<'_>) -> (r: Result<Self, DecodeError>) {
        let w0: u16 = reader.read_u16_le()?;
        let w1: u16 = reader.read_u16_le()?;
        let w2: u16 = reader.read_u16_le()?;
        let bchUpe: u16 = reader.read_u16_le()?;
        let w4: u16 = reader.read_u16_le()?;
        let w5: u16 = reader.read_u16_le()?;
        let rsid: i32 = reader.read_i32_le()?;
        let w7: u16 = reader.read_u16_le()?;
        let length_byte: u8 = reader.read_u8()?;
        let name_buffer: Vec<u16> = reader.read_u16_into_be(length_byte as usize)?;
        let _terminator: u16 = reader.read_u16_le()?;
        let xstzName: String = match string_from_utf16(name_buffer.as_slice()) {
            Some(name) => name,
            None => {
                return Err(DecodeError::InvalidText);
            },
        };
        Ok(
            STD {
                sti: w0 & 0x0FFF,
                fScratch: (w0 & 0x8000) == 0x8000,
                fInvalHeight: (w0 & 0x4000) == 0x4000,
                fHasUpe: (w0 & 0x2000) == 0x2000,
                fMassCopy: (w0 & 0x1000) == 0x1000,
                stk: w1 & 0xF000,
                istdBase: w1 & 0x0FFF,
                cupx: w2 & 0xF000,
                istdNext: w2 & 0x0FFF,
                bchUpe,
                fAutoRedef: (w4 & 0x8000) == 0x8000,
                fHidden: (w4 & 0x4000) == 0x4000,
                f97LidsSet: (w4 & 0x2000) == 0x2000,
                fCopyLang: (w4 & 0x1000) == 0x1000,
                fPersonalCompose: (w4 & 0x0800) == 0x0800,
                fPersonalReply: (w4 & 0x0400) == 0x0400,
                fPersonal: (w4 & 0x0200) == 0x0200,
                fNoHtmlExport: (w4 & 0x0100) == 0x0100,
                fSemiHidden: (w4 & 0x0080) == 0x0080,
                fLocked: (w4 & 0x0040) == 0x0040,
                fInternalUse: (w4 & 0x0020) == 0x0020,
                unused_bits: 0,
                istdLink: w5 & 0x0FFF,
                fSpare: w5 & 0xF000,
                rsid,
                iftcHtml: w7 & 0x0007,
                unused: 0,
                xstzName,
            },
        )
    }
}

/// The bytes of the style record whose length field is at `p`.
pub open spec fn style_record(s: Seq<u8>, p: int) -> Seq<u8> {
    s.subrange(p + 2, p + 2 + le_u16(s, p))
}

/// Where the style slot after the one at `p` starts. A slot is a 16-bit
/// length and a record of that many bytes; a length of zero is an empty slot
/// that takes no further byte. The record is decoded on its own, so a style
/// that does not fit in its record fails, and what the record holds behind
/// the style is skipped.
pub open spec fn style_slot_step(s: Seq<u8>) -> spec_fn(int, int) -> Result<int, DecodeError> {
    |i: int, p: int|
        if !fits(s, p, 2) {
            Err(DecodeError::UnexpectedEof)
        } else if le_u16(s, p) == 0 {
            Ok(p + 2)
        } else if !fits(s, p + 2, le_u16(s, p) as int) {
            Err(DecodeError::UnexpectedEof)
        } else {
            match STD::extent(style_record(s, p), 0, 0) {
                Ok(_) => Ok(p + 2 + le_u16(s, p)),
                Err(e) => Err(e),
            }
        }
}

/// Whether `slot` is what the style slot at `p` holds: nothing for an empty
/// record, else the style decoded from the record.
pub open spec fn style_slot_decoded(slot: Option<STD>, s: Seq<u8>, p: int) -> bool {
    if le_u16(s, p) == 0 {
        slot is None
    } else {
        slot matches Some(style) && style.decoded(style_record(s, p), 0, 0)
    }
}

/// Where the first style slot of the style sheet at `at` starts: behind the
/// length of the header and the header.
pub open spec fn first_style_slot(s: Seq<u8>, at: int) -> int {
    at + 2 + le_u16(s, at)
}

/// Whether slot `i` of `styles` is what the `i`-th style slot of the style
/// sheet at `at` holds.
pub open spec fn style_slot_matches(styles: Seq<Option<STD>>, s: Seq<u8>, at: int, i: int) -> bool {
    after_items(style_slot_step(s), first_style_slot(s, at), i as nat) matches Ok(p)
        && style_slot_decoded(styles[i], s, p)
}

impl FromReader for SHSHI {
    /// A style sheet is the 16-bit length of its header, the header, and one
    /// slot for each style that the header declares. The header is read on
    /// its own, so it must hold the six words that are decoded.
    open spec fn extent(s: Seq<u8>, base: int, at: int) -> Result<int, DecodeError> {
        if !fits(s, at, 2) {
            Err(DecodeError::UnexpectedEof)
        } else if !fits(s, at + 2, le_u16(s, at) as int) {
            Err(DecodeError::UnexpectedEof)
        } else if le_u16(s, at) < STSHI_FIXED_SIZE {
            Err(DecodeError::UnexpectedEof)
        } else {
            after_items(style_slot_step(s), first_style_slot(s, at), le_u16(s, at + 2) as nat)
        }
    }

    /// The header fields are those at the front of the header; there is one
    /// slot for each of the `cstd` styles that the header declares, and slot
    /// `i` is what the `i`-th record holds.
    open spec fn decoded(&self, s: Seq<u8>, base: int, at: int) -> bool {
        &&& self.cstd == le_u16(s, at + 2)
        &&& self.cbSTDBaseInFile == le_u16(s, at + 4)
        &&& self.fStdStylenamesWritten == (le_u16(s, at + 6) & 0x80 == 0x80)
        &&& self.stiMaxWhenSaved == le_u16(s, at + 8)
        &&& self.istdMaxFixedWhenSaved == le_u16(s, at + 10)
        &&& self.nVerBuiltInNamesWhenSaved == le_u16(s, at + 12)
        &&& self.styles@.len() == self.cstd
        &&& forall|i: int|
            0 <= i < self.styles@.len() ==> #[trigger] style_slot_matches(self.styles@, s, at, i)
    }

    #[allow(non_snake_case)]
    #[verifier::loop_isolation(false)]
    fn from_reader(reader: &mut SubReader<'_>) -> (r: Result<Self, DecodeError>) {
        let ghost s = reader.stream();
        let ghost at = reader.pos() as int;
        let cbStshi: u16 = reader.read_u16_le()?;
        let header: &[u8] = reader.take(cbStshi as usize)?;
        if cbStshi < 12 {
            return Err(DecodeError::UnexpectedEof);
        }
        let cstd: u16 = crate::wire::u16_le_at(header, 0);
        let cbSTDBaseInFile: u16 = crate::wire::u16_le_at(header, 2);
        let some_flags: u16 = crate::wire::u16_le_at(header, 4);
        let stiMaxWhenSaved: u16 = crate::wire::u16_le_at(header, 6);
        let istdMaxFixedWhenSaved: u16 = crate::wire::u16_le_at(header, 8);
        let nVerBuiltInNamesWhenSaved: u16 = crate::wire::u16_le_at(header, 10);

        let ghost step = style_slot_step(s);
        let ghost first = first_style_slot(s, at);
        let mut styles: Vec<Option<STD>> = Vec::new();
        let mut i: u16 = 0;
        while i < cstd
            invariant
                i <= cstd,
                reader.stream() == s,
                reader.base() == old(reader).base(),
                after_items(step, first, i as nat) == Ok::<int, DecodeError>(reader.pos() as int),
                styles@.len() == i,
                forall|j: int| 0 <= j < i ==> #[trigger] style_slot_matches(styles@, s, at, j),
            decreases cstd - i,
        {
            let ghost p = reader.pos() as int;
            proof {
                assert(after_items(step, first, (i + 1) as nat) == step(i as int, p));
                if step(i as int, p) is Err {
                    lemma_after_items_failed(step, first, (i + 1) as nat, cstd as nat);
                }
            }
            let cbStd: u16 = reader.read_u16_le()?;
            let ghost before = styles@;
            if cbStd == 0 {
                styles.push(None);
            } else {
                let record: &[u8] = reader.take(cbStd as usize)?;
                let mut std_buffer = SubReader::new(record, 0);
                let style: STD = STD::from_reader(&mut std_buffer)?;
                assert(record@ == style_record(s, p));
                styles.push(Some(style));
            }
            assert forall|j: int| 0 <= j < i + 1 implies #[trigger] style_slot_matches(
                styles@,
                s,
                at,
                j,
            ) by {
                if j < i {
                    assert(style_slot_matches(before, s, at, j));
                    assert(styles@[j] == before[j]);
                }
            }
            i = i + 1;
        }
        Ok(
            SHSHI {
                cstd,
                cbSTDBaseInFile,
                fStdStylenamesWritten: (some_flags & 0x80) == 0x80,
                stiMaxWhenSaved,
                istdMaxFixedWhenSaved,
                nVerBuiltInNamesWhenSaved,
                styles,
            },
        )
    }
}

/// Law: a decoded style sheet has one slot for each style that its header
/// declares, and slot `i` holds what the `i`-th record of the sheet holds:
/// an empty record before it takes two bytes and moves no slot.
pub proof fn lemma_style_slots_keep_their_index(sheet: SHSHI, s: Seq<u8>, base: int, at: int, i: int)
    requires
        SHSHI::extent(s, base, at) is Ok,
        sheet.decoded(s, base, at),
        0 <= i < le_u16(s, at + 2),
    ensures
        sheet.styles@.len() == le_u16(s, at + 2),
        after_items(style_slot_step(s), first_style_slot(s, at), i as nat) is Ok,
        style_slot_decoded(
            sheet.styles@[i],
            s,
            after_items(style_slot_step(s), first_style_slot(s, at), i as nat)->Ok_0,
        ),
        le_u16(s, after_items(style_slot_step(s), first_style_slot(s, at), i as nat)->Ok_0) == 0
            ==> sheet.styles@[i] is None && after_items(
            style_slot_step(s),
            first_style_slot(s, at),
            (i + 1) as nat,
        ) == Ok::<int, DecodeError>(
            after_items(style_slot_step(s), first_style_slot(s, at), i as nat)->Ok_0 + 2,
        ),
{
    assert(style_slot_matches(sheet.styles@, s, at, i));
    let p = after_items(style_slot_step(s), first_style_slot(s, at), i as nat)->Ok_0;
    lemma_after_items_prefix(
        style_slot_step(s),
        first_style_slot(s, at),
        (i + 1) as nat,
        le_u16(s, at + 2) as nat,
    );
    assert(after_items(style_slot_step(s), first_style_slot(s, at), (i + 1) as nat)
        == style_slot_step(s)(i, p));
}

} // verus!
