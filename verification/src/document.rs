//! The assembled document: which table stream the root descriptor selects,
//! where its directory locates the structures in that stream, and the
//! structures decoded from there; the byte ranges shown for inspection; and
//! the comparison of two documents.

use vstd::prelude::*;
use vstd::slice::{slice_subrange, slice_to_vec};
use vstd::string::StringExecFns;
use crate::diff::{
    compare_parts, compute_physical_differences, compute_structure_item_differences,
    entries_match, item_differences, parts_comparable, parts_compared, parts_or_none,
    physical_differences, same_fields,
};
use crate::error::DecodeError;
use crate::fib::Fib;
use crate::from_c_struct::PLCF;
use crate::from_reader::FromReader;
use crate::model::{
    ComparisonLogicalStructure, ComparisonPhysicalStructure, LSTs, PhysicalStructure, Structure,
    PCD, SHSHI,
};
use crate::subreader::SubReader;
use crate::summary::{DocumentSummaryInfoStream, SummaryInformation};
use crate::wire::{fits, i32_le_at, le_i32, le_u32, u32_le_at};

verus! {

/// The lowest version of the root descriptor whose style sheet has the layout
/// that is decoded here.
pub const STSHI_MIN_NFIB: u16 = 67;

/// A decoded document.
#[derive(Debug, PartialEq)]
pub struct WordDocument {
    pub fib: Fib,
    /// The style sheet, where the directory locates one.
    pub stylesheet: Option<SHSHI>,
    /// The piece table, where the directory locates one.
    pub piece_table: Option<PLCF<PCD>>,
    /// The list table; empty where the directory locates none.
    pub list_tables: LSTs,
    pub table_stream_name: String,
    pub document_summary_information_stream: DocumentSummaryInfoStream,
    pub summary_information: SummaryInformation,
}

/// A failure of the assembly, with the directory entry that was being
/// decoded when it occurred.
#[derive(Debug, PartialEq)]
pub struct AssemblyError {
    /// What the directory entry locates.
    pub structure: &'static str,
    /// The place in the table stream that the entry names.
    pub offset: i32,
    /// The number of bytes that the entry declares.
    pub length: u32,
    pub error: DecodeError,
}

/// The range of the table stream of `len` bytes that a directory entry with
/// place `fc` and byte count `lcb` locates: none where the count is zero, and
/// a failure where the range does not lie in the stream.
pub open spec fn located(fc: i32, lcb: u32, len: nat) -> Result<Option<(int, int)>, DecodeError> {
    if lcb == 0 {
        Ok(None)
    } else if fc < 0 || fc + lcb > len {
        Err(DecodeError::MalformedLayout)
    } else {
        Ok(Some((fc as int, fc + lcb)))
    }
}

/// The range of a stream of `len` bytes that a directory entry locates.
pub fn byte_range(fc: i32, lcb: u32, len: usize) -> (r: Result<Option<(usize, usize)>, DecodeError>)
    ensures
        match located(fc, lcb, len as nat) {
            Ok(Some((start, end))) => r == Ok::<Option<(usize, usize)>, DecodeError>(
                Some((start as usize, end as usize)),
            ),
            Ok(None) => r == Ok::<Option<(usize, usize)>, DecodeError>(None),
            Err(e) => r == Err::<Option<(usize, usize)>, DecodeError>(e),
        },
{
    if lcb == 0 {
        return Ok(None);
    }
    if fc < 0 {
        return Err(DecodeError::MalformedLayout);
    }
    let start: u64 = fc as u64;
    let end: u64 = start + lcb as u64;
    if end > len as u64 {
        return Err(DecodeError::MalformedLayout);
    }
    Ok(Some((start as usize, end as usize)))
}

/// The first entry of the directory `pairs` whose range does not lie in a
/// table stream of `len` bytes, or nothing where every range does.
pub fn first_out_of_bounds(pairs: &Vec<(i32, u32, String)>, len: usize) -> (r: Option<usize>)
    ensures
        match r {
            Some(i) => i < pairs@.len() && located(pairs@[i as int].0, pairs@[i as int].1, len as nat)
                is Err && forall|j: int|
                0 <= j < i ==> located((#[trigger] pairs@[j]).0, pairs@[j].1, len as nat) is Ok,
            None => forall|j: int|
                0 <= j < pairs@.len() ==> located((#[trigger] pairs@[j]).0, pairs@[j].1, len as nat)
                    is Ok,
        },
{
    let mut i: usize = 0;
    while i < pairs.len()
        invariant
            i <= pairs@.len(),
            forall|j: int|
                0 <= j < i ==> located((#[trigger] pairs@[j]).0, pairs@[j].1, len as nat) is Ok,
        decreases pairs@.len() - i,
    {
        match byte_range(pairs[i].0, pairs[i].1, len) {
            Ok(_) => {},
            Err(_) => {
                return Some(i);
            },
        }
        i = i + 1;
    }
    None
}

/// The name of the table stream that the root descriptor selects.
pub open spec fn selected_table_stream(fib: &Fib) -> Seq<char> {
    if fib.fWhichTblStm {
        "1Table"@
    } else {
        "0Table"@
    }
}

/// The name of the table stream that belongs to the document: one flag of
/// the root descriptor decides, and nothing else.
pub fn table_stream_name(fib: &Fib) -> (r: &'static str)
    ensures
        r@ == selected_table_stream(fib),
{
    if !fib.fWhichTblStm {
        "0Table"
    } else {
        "1Table"
    }
}

/// What decoding the style sheet gives: nothing where the directory locates
/// none; a failure where the version of the root descriptor is older than
/// the layout decoded here, where the range does not lie in the table
/// stream, where the style sheet does not decode, or where it leaves a part
/// of its range unread.
pub open spec fn stylesheet_outcome(fib: &Fib, table: Seq<u8>) -> Result<Option<int>, DecodeError> {
    match located(fib.fcStshf, fib.lcbStshf, table.len()) {
        Err(e) => Err(e),
        Ok(None) => Ok(None),
        Ok(Some((start, end))) => if fib.nFib < STSHI_MIN_NFIB {
            Err(DecodeError::UnsupportedVariant)
        } else {
            match SHSHI::extent(table.subrange(start, end), 0, 0) {
                Err(e) => Err(e),
                Ok(stop) => if stop == end - start {
                    Ok(Some(start))
                } else {
                    Err(DecodeError::MalformedLayout)
                },
            }
        },
    }
}

/// Decodes the style sheet from the range of the table stream that the
/// directory names for it.
pub fn decode_stylesheet(fib: &Fib, table: &[u8]) -> (r: Result<Option<SHSHI>, DecodeError>)
    ensures
        match stylesheet_outcome(fib, table@) {
            Ok(Some(start)) => r matches Ok(Some(sheet)) && sheet.decoded(
                table@.subrange(start, start + fib.lcbStshf),
                0,
                0,
            ),
            Ok(None) => r matches Ok(None),
            Err(e) => r matches Err(f) && f == e,
        },
{
    let (start, end) = match byte_range(fib.fcStshf, fib.lcbStshf, table.len()) {
        Ok(Some(range)) => range,
        Ok(None) => {
            return Ok(None);
        },
        Err(e) => {
            return Err(e);
        },
    };
    if fib.nFib < STSHI_MIN_NFIB {
        return Err(DecodeError::UnsupportedVariant);
    }
    let block: &[u8] = slice_subrange(table, start, end);
    let mut reader = SubReader::new(block, 0);
    let sheet: SHSHI = SHSHI::from_reader(&mut reader)?;
    if reader.stream_position() != block.len() {
        return Err(DecodeError::MalformedLayout);
    }
    Ok(Some(sheet))
}

/// What decoding the piece table gives: nothing where the directory locates
/// none, and a failure where the range does not lie in the table stream or
/// the piece table does not decode.
pub open spec fn piece_table_outcome(fib: &Fib, table: Seq<u8>) -> Result<Option<(int, int)>, DecodeError> {
    if fib.lcbClx < 0 {
        Err(DecodeError::MalformedLayout)
    } else {
        match located(fib.fcClx, fib.lcbClx as u32, table.len()) {
            Err(e) => Err(e),
            Ok(None) => Ok(None),
            Ok(Some((start, end))) => match PLCF::<PCD>::extent(table.subrange(start, end), 0, 0) {
                Err(e) => Err(e),
                Ok(_) => Ok(Some((start, end))),
            },
        }
    }
}

/// Decodes the piece table from the range of the table stream that the
/// directory names for the complex part of the document.
pub fn decode_piece_table(fib: &Fib, table: &[u8]) -> (r: Result<Option<PLCF<PCD>>, DecodeError>)
    ensures
        match piece_table_outcome(fib, table@) {
            Ok(Some((start, end))) => r matches Ok(Some(pieces)) && pieces.decoded(
                table@.subrange(start, end),
                0,
                0,
            ),
            Ok(None) => r matches Ok(None),
            Err(e) => r matches Err(f) && f == e,
        },
{
    if fib.lcbClx < 0 {
        return Err(DecodeError::MalformedLayout);
    }
    let (start, end) = match byte_range(fib.fcClx, fib.lcbClx as u32, table.len()) {
        Ok(Some(range)) => range,
        Ok(None) => {
            return Ok(None);
        },
        Err(e) => {
            return Err(e);
        },
    };
    let block: &[u8] = slice_subrange(table, start, end);
    let mut reader = SubReader::new(block, 0);
    let pieces: PLCF<PCD> = PLCF::<PCD>::from_reader(&mut reader)?;
    Ok(Some(pieces))
}

/// The number of bytes that are read for the list table: those between its
/// place and the place of the list format overrides that follow it. The byte
/// count that the directory declares for the list table leaves out the
/// levels that follow the list headers, so it is not used.
pub open spec fn list_table_span(fib: &Fib) -> int {
    fib.fcPlfLfo - fib.fcPlcfLst
}

/// Whether the directory locates a list table.
pub open spec fn has_list_table(fib: &Fib) -> bool {
    fib.fcPlcfLst != 0 && fib.lcbPlcfLst != 0
}

/// What decoding the list table gives: the range read where there is a list
/// table and it decodes; a failure where the range is not one or does not
/// lie in the table stream, or where the list table does not decode.
pub open spec fn list_tables_outcome(fib: &Fib, table: Seq<u8>) -> Result<Option<(int, int)>, DecodeError> {
    if !has_list_table(fib) {
        Ok(None)
    } else if fib.fcPlcfLst < 0 || list_table_span(fib) < 0 || fib.fcPlfLfo > table.len() {
        Err(DecodeError::MalformedLayout)
    } else {
        match LSTs::extent(table.subrange(fib.fcPlcfLst as int, fib.fcPlfLfo as int), 0, 0) {
            Err(e) => Err(e),
            Ok(_) => Ok(Some((fib.fcPlcfLst as int, fib.fcPlfLfo as int))),
        }
    }
}

/// Decodes the list table from the table stream. Where the directory
/// locates none, the list table is empty.
pub fn decode_list_tables(fib: &Fib, table: &[u8]) -> (r: Result<LSTs, DecodeError>)
    ensures
        match list_tables_outcome(fib, table@) {
            Ok(Some((start, end))) => r matches Ok(lists) && lists.decoded(
                table@.subrange(start, end),
                0,
                0,
            ),
            Ok(None) => r matches Ok(lists) && lists.num_LSTs == 0 && lists.LSTs@.len() == 0,
            Err(e) => r matches Err(f) && f == e,
        },
{
    if fib.fcPlcfLst == 0 || fib.lcbPlcfLst == 0 {
        return Ok(LSTs { num_LSTs: 0, LSTs: Vec::new() });
    }
    if fib.fcPlcfLst < 0 || fib.fcPlfLfo < fib.fcPlcfLst {
        return Err(DecodeError::MalformedLayout);
    }
    let start: u64 = fib.fcPlcfLst as u64;
    let end: u64 = fib.fcPlfLfo as u64;
    if end > table.len() as u64 {
        return Err(DecodeError::MalformedLayout);
    }
    let block: &[u8] = slice_subrange(table, start as usize, end as usize);
    let mut reader = SubReader::new(block, 0);
    LSTs::from_reader(&mut reader)
}

/// What decoding each structure that the root descriptor locates in the
/// table stream gave. The structures are decoded each on its own, so the
/// failure of one is no failure of another.
#[derive(Debug, PartialEq)]
pub struct StructureOutcomes {
    pub piece_table: Result<Option<PLCF<PCD>>, DecodeError>,
    pub stylesheet: Result<Option<SHSHI>, DecodeError>,
    pub list_tables: Result<LSTs, DecodeError>,
}

/// Decodes each structure that the root descriptor locates in the table
/// stream, and gives the outcome of each.
pub fn decode_structures(fib: &Fib, table: &[u8]) -> (r: StructureOutcomes)
    ensures
        match piece_table_outcome(fib, table@) {
            Ok(Some((start, end))) => r.piece_table matches Ok(Some(pieces)) && pieces.decoded(
                table@.subrange(start, end),
                0,
                0,
            ),
            Ok(None) => r.piece_table matches Ok(None),
            Err(e) => r.piece_table matches Err(f) && f == e,
        },
        match stylesheet_outcome(fib, table@) {
            Ok(Some(start)) => r.stylesheet matches Ok(Some(sheet)) && sheet.decoded(
                table@.subrange(start, start + fib.lcbStshf),
                0,
                0,
            ),
            Ok(None) => r.stylesheet matches Ok(None),
            Err(e) => r.stylesheet matches Err(f) && f == e,
        },
        match list_tables_outcome(fib, table@) {
            Ok(Some((start, end))) => r.list_tables matches Ok(lists) && lists.decoded(
                table@.subrange(start, end),
                0,
                0,
            ),
            Ok(None) => r.list_tables matches Ok(lists) && lists.num_LSTs == 0 && lists.LSTs@.len()
                == 0,
            Err(e) => r.list_tables matches Err(f) && f == e,
        },
{
    StructureOutcomes {
        piece_table: decode_piece_table(fib, table),
        stylesheet: decode_stylesheet(fib, table),
        list_tables: decode_list_tables(fib, table),
    }
}

impl WordDocument {
    /// Whether the structures of `self` are those that the root descriptor
    /// it holds locates in the table stream `table`.
    pub open spec fn assembled_from(&self, table: Seq<u8>) -> bool {
        &&& self.table_stream_name@ == selected_table_stream(&self.fib)
        &&& match stylesheet_outcome(&self.fib, table) {
            Ok(Some(start)) => self.stylesheet matches Some(sheet) && sheet.decoded(
                table.subrange(start, start + self.fib.lcbStshf),
                0,
                0,
            ),
            _ => self.stylesheet is None,
        }
        &&& match piece_table_outcome(&self.fib, table) {
            Ok(Some((start, end))) => self.piece_table matches Some(pieces) && pieces.decoded(
                table.subrange(start, end),
                0,
                0,
            ),
            _ => self.piece_table is None,
        }
        &&& match list_tables_outcome(&self.fib, table) {
            Ok(Some((start, end))) => self.list_tables.decoded(table.subrange(start, end), 0, 0),
            _ => self.list_tables.num_LSTs == 0 && self.list_tables.LSTs@.len() == 0,
        }
    }

    /// The first failure among the structures that the root descriptor
    /// locates in the table stream, in the order in which they are decoded,
    /// with its number in that order: piece table, style sheet, list table,
    /// and the range of the paragraph property bin table, which is only
    /// looked up.
    pub open spec fn first_failure(fib: &Fib, table: Seq<u8>) -> Option<(int, DecodeError)> {
        if piece_table_outcome(fib, table) is Err {
            Some((0, piece_table_outcome(fib, table)->Err_0))
        } else if stylesheet_outcome(fib, table) is Err {
            Some((1, stylesheet_outcome(fib, table)->Err_0))
        } else if list_tables_outcome(fib, table) is Err {
            Some((2, list_tables_outcome(fib, table)->Err_0))
        } else if located(fib.fcPlcfbtePapx, fib.lcbPlcfbtePapx, table.len()) is Err {
            Some((3, DecodeError::MalformedLayout))
        } else {
            None
        }
    }

    /// The directory entry of the structure with number `which` in the order
    /// of decoding: what it locates, the place and the byte count.
    pub open spec fn failing_entry(fib: &Fib, which: int) -> (Seq<char>, i32, u32) {
        if which == 0 {
            ("Complex File Information"@, fib.fcClx, fib.lcbClx as u32)
        } else if which == 1 {
            ("STSH structure"@, fib.fcStshf, fib.lcbStshf)
        } else if which == 2 {
            ("list format intformation table"@, fib.fcPlcfLst, fib.lcbPlcfLst)
        } else {
            ("paragraph property bin table PLC"@, fib.fcPlcfbtePapx, fib.lcbPlcfbtePapx)
        }
    }

    /// Assembles the document from its root descriptor, the bytes of the
    /// table stream that the descriptor selects, and its two summaries. The
    /// first structure that fails ends the assembly, and the failure names
    /// the directory entry that located it.
    pub fn assemble(
        fib: Fib,
        table_stream: &[u8],
        document_summary_information_stream: DocumentSummaryInfoStream,
        summary_information: SummaryInformation,
    ) -> (r: Result<WordDocument, AssemblyError>)
        ensures
            match r {
                Ok(document) => {
                    &&& Self::first_failure(&fib, table_stream@) is None
                    &&& document.fib == fib
                    &&& document.assembled_from(table_stream@)
                    &&& document.document_summary_information_stream
                        == document_summary_information_stream
                    &&& document.summary_information == summary_information
                },
                Err(failure) => {
                    &&& Self::first_failure(&fib, table_stream@) matches Some((which, error))
                    &&& failure.error == error
                    &&& failure.structure@ == Self::failing_entry(&fib, which).0
                    &&& failure.offset == Self::failing_entry(&fib, which).1
                    &&& failure.length == Self::failing_entry(&fib, which).2
                },
            },
    {
        let outcomes: StructureOutcomes = decode_structures(&fib, table_stream);
        let piece_table: Option<PLCF<PCD>> = match outcomes.piece_table {
            Ok(pieces) => pieces,
            Err(error) => {
                return Err(
                    AssemblyError {
                        structure: "Complex File Information",
                        offset: fib.fcClx,
                        length: #[verifier::truncate]
                        (fib.lcbClx as u32),
                        error,
                    },
                );
            },
        };
        let stylesheet: Option<SHSHI> = match outcomes.stylesheet {
            Ok(sheet) => sheet,
            Err(error) => {
                return Err(
                    AssemblyError {
                        structure: "STSH structure",
                        offset: fib.fcStshf,
                        length: fib.lcbStshf,
                        error,
                    },
                );
            },
        };
        let list_tables: LSTs = match outcomes.list_tables {
            Ok(lists) => lists,
            Err(error) => {
                return Err(
                    AssemblyError {
                        structure: "list format intformation table",
                        offset: fib.fcPlcfLst,
                        length: fib.lcbPlcfLst,
                        error,
                    },
                );
            },
        };
        match byte_range(fib.fcPlcfbtePapx, fib.lcbPlcfbtePapx, table_stream.len()) {
            Ok(_) => {},
            Err(error) => {
                return Err(
                    AssemblyError {
                        structure: "paragraph property bin table PLC",
                        offset: fib.fcPlcfbtePapx,
                        length: fib.lcbPlcfbtePapx,
                        error,
                    },
                );
            },
        }
        let table_stream_name: String = String::from_str(table_stream_name(&fib));
        Ok(
            WordDocument {
                fib,
                stylesheet,
                piece_table,
                list_tables,
                table_stream_name,
                document_summary_information_stream,
                summary_information,
            },
        )
    }
}

/// The bytes of `s` from `start` to `end`, both counted from `base`, as far
/// as `s` goes.
pub open spec fn range_bytes(s: Seq<u8>, base: int, start: int, end: int) -> Seq<u8> {
    s.subrange(
        if base + start <= s.len() {
            base + start
        } else {
            s.len() as int
        },
        if base + end <= s.len() {
            base + end
        } else {
            s.len() as int
        },
    )
}

impl PhysicalStructure {
    /// The bytes of the reader's stream from `start` to `end`, counted from
    /// the reader's origin, as far as the stream goes, under the name of the
    /// stream.
    pub fn from_reader_range(reader: &SubReader<'_>, start: u64, end: u64, stream_name: &str) -> (r:
        Self)
        requires
            start <= end,
        ensures
            r.stream_name@ == stream_name@,
            r.bytes@ == range_bytes(reader.stream(), reader.base() as int, start as int, end as int),
            r.start_index == start,
            r.end_index == end,
            r.description is None,
            r.structure_name is None,
    {
        let stream: &[u8] = reader.get_ref();
        let origin: u64 = reader.origin() as u64;
        let len: u64 = stream.len() as u64;
        let room: u64 = if origin <= len {
            len - origin
        } else {
            0
        };
        let lo: u64 = if origin <= len && start <= room {
            origin + start
        } else {
            len
        };
        let hi: u64 = if origin <= len && end <= room {
            origin + end
        } else {
            len
        };
        let bytes: Vec<u8> = slice_to_vec(slice_subrange(stream, lo as usize, hi as usize));
        PhysicalStructure {
            stream_name: String::from_str(stream_name),
            bytes,
            start_index: start,
            end_index: end,
            description: None,
            structure_name: None,
        }
    }

    /// The same range under the name `name`.
    pub fn structure_name(self, name: &str) -> (r: Self)
        ensures
            r.structure_name matches Some(n) && n@ == name@,
            r.stream_name == self.stream_name,
            r.bytes == self.bytes,
            r.start_index == self.start_index,
            r.end_index == self.end_index,
            r.description == self.description,
    {
        let mut named = self;
        named.structure_name = Some(String::from_str(name));
        named
    }

    /// The same range with the description `description`.
    pub fn description(self, description: &str) -> (r: Self)
        ensures
            r.description matches Some(d) && d@ == description@,
            r.stream_name == self.stream_name,
            r.bytes == self.bytes,
            r.start_index == self.start_index,
            r.end_index == self.end_index,
            r.structure_name == self.structure_name,
    {
        let mut described = self;
        described.description = Some(String::from_str(description));
        described
    }
}

/// Whether `p` is the range of `bytes` from `start` to `end` of the stream
/// called `stream_name`, named and described as given.
pub open spec fn physical_is(
    p: PhysicalStructure,
    stream_name: Seq<char>,
    structure_name: Option<Seq<char>>,
    description: Seq<char>,
    bytes: Seq<u8>,
    start: int,
    end: int,
) -> bool {
    &&& p.stream_name@ == stream_name
    &&& match structure_name {
        Some(name) => p.structure_name matches Some(n) && n@ == name,
        None => p.structure_name is None,
    }
    &&& p.description matches Some(d) && d@ == description
    &&& p.bytes@ == bytes
    &&& p.start_index == start
    &&& p.end_index == end
}

/// Why the ranges of a document cannot be shown, if they cannot: the text
/// range or the range of the style sheet is no range, or the main stream
/// ends before the directory entry of the footnote references or names a
/// place before the start of the stream for them.
pub open spec fn physical_failure(fib: &Fib, word: Seq<u8>) -> Option<DecodeError> {
    if fib.fcMin < 0 || fib.ccpText < 0 || fib.fcMin * fib.ccpText < fib.fcMin {
        Some(DecodeError::MalformedLayout)
    } else if fib.fcStshf < 0 || fib.fcStshf + fib.lcbStshf > i32::MAX {
        Some(DecodeError::MalformedLayout)
    } else if !fits(word, 0xAA, 8) {
        Some(DecodeError::UnexpectedEof)
    } else if le_i32(word, 0xAA) < 0 {
        Some(DecodeError::MalformedLayout)
    } else {
        None
    }
}

/// Whether `list` holds the ranges that are shown of a document with root
/// descriptor `fib`, main stream `word` and table stream `table`: six parts
/// of the root descriptor, the text, the style sheet, and the footnote
/// references, each with the stream name, the name and the description
/// under which it is shown.
pub open spec fn physical_structures_of(
    list: Seq<PhysicalStructure>,
    fib: &Fib,
    word: Seq<u8>,
    table: Seq<u8>,
) -> bool {
    &&& list.len() == 9
    &&& physical_is(
        list[0],
        "WordDocument"@,
        Some("Fib 1997 Header"@),
        "Fib Header bytes; conttains varaibles like product versionand word version"@,
        range_bytes(word, 0, 0, 72),
        0,
        72,
    )
    &&& physical_is(
        list[1],
        "WordDocument"@,
        Some("Fib 1997 cont."@),
        "variables ccpText - lcbWss of the Fib"@,
        range_bytes(word, 0, 72, 402),
        72,
        402,
    )
    &&& physical_is(
        list[2],
        "WordDocument"@,
        Some("Fib 1997 cont."@),
        "variables fcDop - lcbSttbfUser of the Fib. End of Word 97 Fib"@,
        range_bytes(word, 0, 402, 898),
        402,
        898,
    )
    &&& physical_is(
        list[3],
        "WordDocument"@,
        Some("Fib 2000 ext."@),
        "Word 2000 definitions. Variables fcPlcTch - lcbPlcfpgp"@,
        range_bytes(word, 0, 898, 1034),
        898,
        1034,
    )
    &&& physical_is(
        list[4],
        "WordDocument"@,
        Some("Fib 2002 ext."@),
        "Word 2002 definitions. Variables fcPlcfuim - lcbPlcflvcMixedXP"@,
        range_bytes(word, 0, 1034, 1242),
        1034,
        1242,
    )
    &&& physical_is(
        list[5],
        "WordDocument"@,
        Some("Fib 2003 ext."@),
        "Word 2003 definitions. Variables fcHplxsdr - cQuickSavesNew"@,
        range_bytes(word, 0, 1242, 1258),
        1242,
        1258,
    )
    &&& physical_is(
        list[6],
        "Table Stream"@,
        None,
        "first character to alst character of the regular text section"@,
        range_bytes(word, 0, fib.fcMin as int, fib.fcMin * fib.ccpText),
        fib.fcMin as int,
        fib.fcMin * fib.ccpText,
    )
    &&& physical_is(
        list[7],
        "Table Stream"@,
        None,
        "STSHI(Stylesheet) structure"@,
        range_bytes(table, 0, fib.fcStshf as int, fib.fcStshf + fib.lcbStshf),
        fib.fcStshf as int,
        fib.fcStshf + fib.lcbStshf,
    )
    &&& physical_is(
        list[8],
        "WordDocument"@,
        None,
        "Footnote Reference Structure"@,
        range_bytes(table, 0, le_i32(word, 0xAA) as int, le_i32(word, 0xAA) + le_u32(word, 0xAE)),
        le_i32(word, 0xAA) as int,
        le_i32(word, 0xAA) + le_u32(word, 0xAE),
    )
}

/// The range from `start` to `end` of the reader's stream, described, and
/// named where a name is given.
fn physical(
    reader: &SubReader<'_>,
    start: u64,
    end: u64,
    stream_name: &str,
    structure_name: Option<&str>,
    description: &str,
) -> (r: PhysicalStructure)
    requires
        start <= end,
        reader.base() == 0,
    ensures
        physical_is(
            r,
            stream_name@,
            match structure_name {
                Some(name) => Some(name@),
                None => None,
            },
            description@,
            range_bytes(reader.stream(), 0, start as int, end as int),
            start as int,
            end as int,
        ),
{
    let range = PhysicalStructure::from_reader_range(reader, start, end, stream_name).description(
        description,
    );
    match structure_name {
        Some(name) => range.structure_name(name),
        None => range,
    }
}

/// One entry of a comparison of byte ranges, of the ranges `reference` and
/// `other`.
pub open spec fn physical_compared(
    entry: ComparisonPhysicalStructure<'_, '_>,
    reference: PhysicalStructure,
    other: PhysicalStructure,
) -> bool {
    &&& *entry.ref_structure == reference
    &&& *entry.comp_structure == other
    &&& entry.difference_indices@ == physical_differences(reference.bytes@, other.bytes@)
}

/// Whether the bytes of `p` have a number of nibbles that a `usize` holds.
pub open spec fn nibbles_countable(p: PhysicalStructure) -> bool {
    2 * p.bytes@.len() <= usize::MAX
}

/// Whether the structures `reference` and `other` can be compared: they have
/// one name and name the same fields, and so do the partners among the
/// structures below them, at every depth.
pub open spec fn comparable(reference: Structure, other: Structure) -> bool {
    &&& reference.name@ == other.name@
    &&& same_fields(reference.structure@, other.structure@)
    &&& parts_comparable(reference, other)
}

/// Whether `entry` compares the structures `reference` and `other`. The
/// entry keeps the structure of the other document as its reference and that
/// of this document as the one compared; the entries below it keep the
/// structures of this document as references.
pub open spec fn logical_compared(
    entry: ComparisonLogicalStructure<'_, '_>,
    reference: Structure,
    other: Structure,
) -> bool {
    &&& entry.ref_structure == Some(&other)
    &&& entry.comp_structure == Some(&reference)
    &&& entry.structure_differences@ == item_differences(reference.structure@, other.structure@)
    &&& entries_match(
        entry.substructure_differences@,
        parts_compared(reference, other),
        parts_or_none(reference.substructs),
        parts_or_none(other.substructs),
    )
}

impl WordDocument {
    /// The document as trees of named fields: the root descriptor, the style
    /// sheet, the piece table, and the two summaries, which the caller shows.
    /// A structure that the document lacks is shown without fields.
    pub fn get_logical_structures(&self, document_summary: Structure, summary: Structure) -> (r: Vec<
        Structure,
    >)
        ensures
            r@.len() == 5,
            crate::to_structure::shows(r@[0], "Fib"@, &self.fib),
            match self.stylesheet {
                Some(sheet) => crate::to_structure::shows(r@[1], "StyleSheet"@, &sheet),
                None => r@[1].name@ == "StyleSheet"@ && r@[1].structure@.len() == 0
                    && r@[1].substructs is None,
            },
            match self.piece_table {
                Some(pieces) => crate::to_structure::shows(r@[2], "Piece Tables"@, &pieces),
                None => r@[2].name@ == "Piece Tables"@ && r@[2].structure@.len() == 0
                    && r@[2].substructs is None,
            },
            r@[3] == document_summary,
            r@[4] == summary,
    {
        let mut structures: Vec<Structure> = Vec::new();
        structures.push(Structure::from("Fib", &self.fib));
        match &self.stylesheet {
            Some(sheet) => {
                structures.push(Structure::from("StyleSheet", sheet));
            },
            None => {
                structures.push(
                    Structure {
                        name: String::from_str("StyleSheet"),
                        structure: Vec::new(),
                        substructs: None,
                    },
                );
            },
        }
        match &self.piece_table {
            Some(pieces) => {
                structures.push(Structure::from("Piece Tables", pieces));
            },
            None => {
                structures.push(
                    Structure {
                        name: String::from_str("Piece Tables"),
                        structure: Vec::new(),
                        substructs: None,
                    },
                );
            },
        }
        structures.push(document_summary);
        structures.push(summary);
        structures
    }

    /// The byte ranges of the document that are shown for inspection: six
    /// parts of the root descriptor, taken from the main stream; the text,
    /// taken from the main stream from `fcMin` to the product of `fcMin` and
    /// `ccpText` and shown under the stream name `Table Stream`; the style
    /// sheet, taken from the table stream; and the footnote references, which
    /// the directory entry at `0xAA` of the main stream locates, taken from
    /// the table stream and shown under the stream name `WordDocument`. A
    /// range ends where its stream ends.
    pub fn get_physical_sructures(&self, word_doc_stream: &[u8], table_stream: &[u8]) -> (r: Result<
        Vec<PhysicalStructure>,
        DecodeError,
    >)
        ensures
            match r {
                Ok(list) => physical_failure(&self.fib, word_doc_stream@) is None
                    && physical_structures_of(list@, &self.fib, word_doc_stream@, table_stream@),
                Err(e) => physical_failure(&self.fib, word_doc_stream@) == Some(e),
            },
    {
        let fib: &Fib = &self.fib;
        let word = SubReader::new(word_doc_stream, 0);
        let table = SubReader::new(table_stream, 0);
        let mut output: Vec<PhysicalStructure> = Vec::new();
        output.push(
            physical(
                &word,
                0,
                72,
                "WordDocument",
                Some("Fib 1997 Header"),
                "Fib Header bytes; conttains varaibles like product versionand word version",
            ),
        );
        output.push(
            physical(
                &word,
                72,
                402,
                "WordDocument",
                Some("Fib 1997 cont."),
                "variables ccpText - lcbWss of the Fib",
            ),
        );
        output.push(
            physical(
                &word,
                402,
                898,
                "WordDocument",
                Some("Fib 1997 cont."),
                "variables fcDop - lcbSttbfUser of the Fib. End of Word 97 Fib",
            ),
        );
        output.push(
            physical(
                &word,
                898,
                1034,
                "WordDocument",
                Some("Fib 2000 ext."),
                "Word 2000 definitions. Variables fcPlcTch - lcbPlcfpgp",
            ),
        );
        output.push(
            physical(
                &word,
                1034,
                1242,
                "WordDocument",
                Some("Fib 2002 ext."),
                "Word 2002 definitions. Variables fcPlcfuim - lcbPlcflvcMixedXP",
            ),
        );
        output.push(
            physical(
                &word,
                1242,
                1258,
                "WordDocument",
                Some("Fib 2003 ext."),
                "Word 2003 definitions. Variables fcHplxsdr - cQuickSavesNew",
            ),
        );
        if fib.fcMin < 0 || fib.ccpText < 0 {
            return Err(DecodeError::MalformedLayout);
        }
        let text_start: u64 = fib.fcMin as u64;
        assert(fib.fcMin * fib.ccpText <= 0x7FFF_FFFF * 0x7FFF_FFFF) by (nonlinear_arith)
            requires
                0 <= fib.fcMin <= 0x7FFF_FFFF,
                0 <= fib.ccpText <= 0x7FFF_FFFF,
        ;
        let text_end: u64 = text_start * (fib.ccpText as u64);
        if text_end < text_start {
            return Err(DecodeError::MalformedLayout);
        }
        output.push(
            physical(
                &word,
                text_start,
                text_end,
                "Table Stream",
                None,
                "first character to alst character of the regular text section",
            ),
        );
        if fib.fcStshf < 0 || fib.fcStshf as u64 + fib.lcbStshf as u64 > 0x7FFF_FFFF {
            return Err(DecodeError::MalformedLayout);
        }
        output.push(
            physical(
                &table,
                fib.fcStshf as u64,
                fib.fcStshf as u64 + fib.lcbStshf as u64,
                "Table Stream",
                None,
                "STSHI(Stylesheet) structure",
            ),
        );
        if word_doc_stream.len() < 0xAA + 8 {
            return Err(DecodeError::UnexpectedEof);
        }
        let fc_offset: i32 = i32_le_at(word_doc_stream, 0xAA);
        let count: u32 = u32_le_at(word_doc_stream, 0xAE);
        if fc_offset < 0 {
            return Err(DecodeError::MalformedLayout);
        }
        output.push(
            physical(
                &table,
                fc_offset as u64,
                fc_offset as u64 + count as u64,
                "WordDocument",
                None,
                "Footnote Reference Structure",
            ),
        );
        Ok(output)
    }

    /// Compares the byte ranges of two documents pair by pair, as far as
    /// both lists go.
    pub fn compare_to_physical<'a, 'b>(
        reference_physical_strucutres: &'b Vec<PhysicalStructure>,
        other_physical_strucutres: &'a Vec<PhysicalStructure>,
    ) -> (r: Vec<ComparisonPhysicalStructure<'a, 'b>>)
        requires
            forall|i: int|
                0 <= i < reference_physical_strucutres@.len() ==> nibbles_countable(
                    #[trigger] reference_physical_strucutres@[i],
                ),
            forall|i: int|
                0 <= i < other_physical_strucutres@.len() ==> nibbles_countable(
                    #[trigger] other_physical_strucutres@[i],
                ),
        ensures
            r@.len() == crate::diff::shorter(
                reference_physical_strucutres@.len(),
                other_physical_strucutres@.len(),
            ),
            forall|i: int|
                0 <= i < r@.len() ==> physical_compared(
                    #[trigger] r@[i],
                    reference_physical_strucutres@[i],
                    other_physical_strucutres@[i],
                ),
    {
        let n: usize = if reference_physical_strucutres.len() <= other_physical_strucutres.len() {
            reference_physical_strucutres.len()
        } else {
            other_physical_strucutres.len()
        };
        let mut difference_indeces: Vec<ComparisonPhysicalStructure<'a, 'b>> = Vec::new();
        let mut i: usize = 0;
        while i < n
            invariant
                i <= n,
                n == crate::diff::shorter(
                    reference_physical_strucutres@.len(),
                    other_physical_strucutres@.len(),
                ),
                forall|k: int|
                    0 <= k < reference_physical_strucutres@.len() ==> nibbles_countable(
                        #[trigger] reference_physical_strucutres@[k],
                    ),
                forall|k: int|
                    0 <= k < other_physical_strucutres@.len() ==> nibbles_countable(
                        #[trigger] other_physical_strucutres@[k],
                    ),
                difference_indeces@.len() == i,
                forall|k: int|
                    0 <= k < i ==> physical_compared(
                        #[trigger] difference_indeces@[k],
                        reference_physical_strucutres@[k],
                        other_physical_strucutres@[k],
                    ),
            decreases n - i,
        {
            let ref_structure: &'b PhysicalStructure = &reference_physical_strucutres[i];
            let other_structure: &'a PhysicalStructure = &other_physical_strucutres[i];
            assert(nibbles_countable(reference_physical_strucutres@[i as int]));
            assert(nibbles_countable(other_physical_strucutres@[i as int]));
            let differences: Vec<(usize, usize)> = compute_physical_differences(
                crate::property_value::clone_items(&ref_structure.bytes),
                crate::property_value::clone_items(&other_structure.bytes),
            );
            difference_indeces.push(
                ComparisonPhysicalStructure {
                    ref_structure,
                    comp_structure: other_structure,
                    difference_indices: differences,
                },
            );
            i = i + 1;
        }
        difference_indeces
    }

    /// Compares the field trees of two documents pair by pair, as far as
    /// both lists go: the fields of each pair, and the structures below them.
    pub fn compare_to_logical<'a>(
        reference_logical_structures: &'a Vec<Structure>,
        other_logical_strucutres: &'a Vec<Structure>,
    ) -> (r: Vec<ComparisonLogicalStructure<'a, 'a>>)
        requires
            forall|i: int|
                0 <= i < crate::diff::shorter(
                    reference_logical_structures@.len(),
                    other_logical_strucutres@.len(),
                ) ==> comparable(
                    #[trigger] reference_logical_structures@[i],
                    other_logical_strucutres@[i],
                ),
        ensures
            r@.len() == crate::diff::shorter(
                reference_logical_structures@.len(),
                other_logical_strucutres@.len(),
            ),
            forall|i: int|
                0 <= i < r@.len() ==> logical_compared(
                    #[trigger] r@[i],
                    reference_logical_structures@[i],
                    other_logical_strucutres@[i],
                ),
    {
        let n: usize = if reference_logical_structures.len() <= other_logical_strucutres.len() {
            reference_logical_structures.len()
        } else {
            other_logical_strucutres.len()
        };
        let mut logical_structures: Vec<ComparisonLogicalStructure<'a, 'a>> = Vec::new();
        let mut i: usize = 0;
        while i < n
            invariant
                i <= n,
                n == crate::diff::shorter(
                    reference_logical_structures@.len(),
                    other_logical_strucutres@.len(),
                ),
                forall|k: int|
                    0 <= k < n ==> comparable(
                        #[trigger] reference_logical_structures@[k],
                        other_logical_strucutres@[k],
                    ),
                logical_structures@.len() == i,
                forall|k: int|
                    0 <= k < i ==> logical_compared(
                        #[trigger] logical_structures@[k],
                        reference_logical_structures@[k],
                        other_logical_strucutres@[k],
                    ),
            decreases n - i,
        {
            let ref_structure: &'a Structure = &reference_logical_structures[i];
            let other_structure: &'a Structure = &other_logical_strucutres[i];
            assert(comparable(reference_logical_structures@[i as int], other_logical_strucutres@[i as int]));
            let bool_arr: Vec<bool> = compute_structure_item_differences(
                &ref_structure.structure,
                &other_structure.structure,
            );
            let substructure_arr: Vec<ComparisonLogicalStructure<'a, 'a>> = compare_parts(
                ref_structure,
                other_structure,
            );
            logical_structures.push(
                ComparisonLogicalStructure {
                    ref_structure: Some(other_structure),
                    comp_structure: Some(ref_structure),
                    structure_differences: bool_arr,
                    substructure_differences: substructure_arr,
                },
            );
            i = i + 1;
        }
        logical_structures
    }
}

} // verus!
