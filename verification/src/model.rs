//! The typed model of a decoded document.

use vstd::prelude::*;
use crate::wire::{le_bytes_of_i32, le_bytes_of_u16, le_bytes_of_u32};

verus! {

/// Raw bytes of a field that is shown as it is stored, not as a number.
#[derive(Debug, PartialEq)]
pub struct Bytes {
    pub bytes: Vec<u8>,
}

impl View for Bytes {
    type V = Seq<u8>;

    open spec fn view(&self) -> Seq<u8> {
        self.bytes@
    }
}

impl Bytes {
    /// The given bytes.
    pub fn new(bytes: Vec<u8>) -> (r: Self)
        ensures
            r@ == bytes@,
    {
        Bytes { bytes }
    }

    /// The two bytes that store `value` little-endian.
    pub fn from_u16(value: u16) -> (r: Self)
        ensures
            r@ == le_bytes_of_u16(value),
    {
        let mut bytes: Vec<u8> = Vec::new();
        bytes.push((value % 0x100) as u8);
        bytes.push((value / 0x100) as u8);
        assert(bytes@ =~= le_bytes_of_u16(value));
        Bytes { bytes }
    }

    /// The four bytes that store `value` little-endian in two's complement.
    pub fn from_i32(value: i32) -> (r: Self)
        ensures
            r@ == le_bytes_of_i32(value),
    {
        if value < 0 {
            Bytes::from_u32((value as i64 + 0x1_0000_0000) as u32)
        } else {
            Bytes::from_u32(value as u32)
        }
    }

    /// The four bytes that store `value` little-endian.
    pub fn from_u32(value: u32) -> (r: Self)
        ensures
            r@ == le_bytes_of_u32(value),
    {
        let mut bytes: Vec<u8> = Vec::new();
        bytes.push((value % 0x100) as u8);
        bytes.push((value / 0x100 % 0x100) as u8);
        bytes.push((value / 0x1_0000 % 0x100) as u8);
        bytes.push((value / 0x100_0000 % 0x100) as u8);
        assert(bytes@ =~= le_bytes_of_u32(value));
        Bytes { bytes }
    }
}

/// One field of a structure as it is shown: its name, its value as text, and
/// what the field means, where that is known.
#[derive(Debug, PartialEq)]
pub struct StructureItem {
    pub name: String,
    pub value: String,
    pub description: Option<String>,
}

/// A structure of a document as a tree of named fields: the fields of the
/// structure itself, and the named structures below it, where it has any.
#[derive(Debug, PartialEq)]
pub struct Structure {
    pub name: String,
    pub structure: Vec<StructureItem>,
    pub substructs: Option<Vec<Structure>>,
}

/// A range of bytes taken as it is from a named stream, with the place it was
/// taken from.
#[derive(Debug, PartialEq)]
pub struct PhysicalStructure {
    pub stream_name: String,
    pub structure_name: Option<String>,
    pub bytes: Vec<u8>,
    pub start_index: u64,
    pub end_index: u64,
    pub description: Option<String>,
}

/// Two byte ranges of one purpose and the ranges of nibble numbers in which
/// they differ.
#[derive(Debug, PartialEq)]
pub struct ComparisonPhysicalStructure<'a, 'b> {
    pub ref_structure: &'b PhysicalStructure,
    pub comp_structure: &'a PhysicalStructure,
    pub difference_indices: Vec<(usize, usize)>,
}

/// Two structures of one name, or one structure that the other side lacks;
/// for each field whether it differs; and the same for the structures below.
#[derive(Debug, PartialEq)]
pub struct ComparisonLogicalStructure<'a, 'b> {
    pub ref_structure: Option<&'a Structure>,
    pub comp_structure: Option<&'b Structure>,
    pub structure_differences: Vec<bool>,
    pub substructure_differences: Vec<ComparisonLogicalStructure<'a, 'b>>,
}

/// Four directory words that locate page and break descriptors as older
/// versions of the format stored them.
#[allow(non_snake_case)]
#[derive(Clone, Copy, Debug, PartialEq)]
pub struct FCPGDOLD {
    pub fcPgd: i32,
    pub lcbPgd: u32,
    pub fcBkd: i32,
    pub lcbBkd: u32,
}

/// A piece descriptor: one contiguous run of text.
#[allow(non_snake_case)]
#[derive(Clone, Copy, Debug, PartialEq)]
pub struct PCD {
    pub fNoParaLast: bool,
    pub rest_of_bitfield: [bool; 3],
    pub fn_val: u16,
    pub fc: i32,
    pub prm: u16,
}

/// The format identifier of one section of a property set stream and the
/// place in the stream where the section starts.
#[allow(non_snake_case)]
#[derive(Clone, Copy, Debug, PartialEq)]
pub struct RgIdOffset {
    pub formatID: [u8; 16],
    pub sectionOffset: u32,
}

/// One style of the style sheet. The fields keep the names of the format's
/// documentation; the property arrays that follow the name in the record are
/// not decoded.
#[allow(non_snake_case)]
#[derive(Debug, PartialEq)]
pub struct STD {
    /// Invariant style identifier
    pub sti: u16,
    /// Spare field for any temporary use
    pub fScratch: bool,
    /// PHEs of all text with this style are wrong
    pub fInvalHeight: bool,
    /// UPEs have been generated
    pub fHasUpe: bool,
    /// std has been mass-copied
    pub fMassCopy: bool,
    /// Style kind
    pub stk: u16,
    /// Base style
    pub istdBase: u16,
    /// Number of UPXs (and UPEs)
    pub cupx: u16,
    /// Next style
    pub istdNext: u16,
    /// Offset to end of upx's, start of upe's
    pub bchUpe: u16,
    /// Auto redefine style when appropriate
    pub fAutoRedef: bool,
    /// Hidden from UI?
    pub fHidden: bool,
    /// Style already has valid sprmCRgLidX_80 in it
    pub f97LidsSet: bool,
    /// Copied the lid from sprmCRgLidX into sprmCRgLidX_80
    pub fCopyLang: bool,
    /// HTML Threading compose style
    pub fPersonalCompose: bool,
    /// HTML Threading reply style
    pub fPersonalReply: bool,
    /// HTML Threading - another user's personal style
    pub fPersonal: bool,
    /// Do not export this style to HTML/CSS
    pub fNoHtmlExport: bool,
    /// Do not show this style in long style lists
    pub fSemiHidden: bool,
    /// Locked style?
    pub fLocked: bool,
    /// Style is used by a word feature, e.g. footnote
    pub fInternalUse: bool,
    /// Unused bits
    pub unused_bits: u16,
    /// Is this style linked to another?
    pub istdLink: u16,
    /// 4 Spare bits
    pub fSpare: u16,
    /// Marks during merge which doc's style changed
    pub rsid: i32,
    /// Used temporarily during HTML export
    pub iftcHtml: u16,
    /// Unused bits
    pub unused: u16,
    /// Sub-names are separated by chDelimStyle
    pub xstzName: String,
}

/// The style sheet: its header and one slot for each style index. A slot
/// whose record is empty holds no style, and the slots after it keep their
/// index.
#[allow(non_snake_case)]
#[derive(Debug, PartialEq)]
pub struct SHSHI {
    pub cstd: u16,
    pub cbSTDBaseInFile: u16,
    /// Are built-in stylenames stored
    pub fStdStylenamesWritten: bool,
    /// Max sti known when this file was written
    pub stiMaxWhenSaved: u16,
    /// Number of fixed-index istds there are
    pub istdMaxFixedWhenSaved: u16,
    /// Current version of built-in stylenames
    pub nVerBuiltInNamesWhenSaved: u16,
    pub styles: Vec<Option<STD>>,
}

/// What holds for a whole list: its identifier, its template, the style of
/// each of its nine levels, and its flags.
#[allow(non_snake_case)]
#[derive(Clone, Copy, Debug, PartialEq)]
pub struct LSTF {
    pub lsid: i32,
    pub tplc: i32,
    pub rgistd: [u16; 9],
    pub flagfield: u8,
    pub compat_flags: u8,
}

impl LSTF {
    /// Whether the flags say that the list has one level only.
    pub open spec fn simple_list(&self) -> bool {
        self.flagfield & 0x01 == 0x01
    }

    /// Whether the flags say that the list is a hybrid list.
    pub open spec fn hybrid_list(&self) -> bool {
        self.flagfield & 0x10 == 0x10
    }

    /// Whether the list has one level only, not nine.
    #[allow(non_snake_case)]
    pub fn fSimpleList(&self) -> (r: bool)
        ensures
            r == self.simple_list(),
    {
        self.flagfield & 0x01 == 0x01
    }

    /// Whether the list is a hybrid list.
    #[allow(non_snake_case)]
    pub fn fHybridList(&self) -> (r: bool)
        ensures
            r == self.hybrid_list(),
    {
        self.flagfield & 0x10 == 0x10
    }
}

/// The fixed part of one level of a list.
#[allow(non_snake_case)]
#[derive(Clone, Copy, Debug, PartialEq)]
pub struct LVLF {
    pub iStartAt: i32,
    pub nfc: u8,
    pub jc: u8,
    pub fLegal: bool,
    pub fNoRestart: bool,
    pub fPrev: bool,
    pub fPrevSpace: bool,
    pub fWord6: bool,
    pub rgbxchNums: [u8; 9],
    pub ixchFollow: u8,
    pub dxaSpace: i32,
    pub dxaIndent: i32,
    pub cbGrpprlChpx: u8,
    pub cbGrpprlPapx: u8,
    pub ilvlRestartLim: u8,
    pub grfhic: u8,
}

/// The formatting of one level of a list: the fixed part, the two property
/// blobs whose lengths it declares, kept as bytes, and the numbering text.
#[allow(non_snake_case)]
#[derive(Debug, PartialEq)]
pub struct LVL {
    pub lvlf: LVLF,
    pub grpprlChpx: Vec<u8>,
    pub grpprlPapx: Vec<u8>,
    pub nubmer_text: String,
}

/// One list: what holds for the whole list, and its levels.
#[derive(Debug, PartialEq)]
pub struct LST {
    pub lstf: LSTF,
    pub level_styles: Vec<LVL>,
}

/// The list table.
#[allow(non_snake_case)]
#[derive(Debug, PartialEq)]
pub struct LSTs {
    pub num_LSTs: u16,
    pub LSTs: Vec<LST>,
}

} // verus!
