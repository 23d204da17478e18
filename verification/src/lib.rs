//! Decoder for the legacy Word binary document format, and a structural diff
//! over decoded documents.
//!
//! A document is a compound file of named streams. The main stream starts
//! with the file information block ([`Fib`]), whose directory locates the
//! other structures in one of two table streams: the style sheet ([`SHSHI`]),
//! the piece table (a [`PLCF`] of [`PCD`]) and the list table ([`LSTs`]). Two
//! more streams hold property sets, from which the summaries of the document
//! are taken. Every decoder reads bytes that the caller took from the file,
//! through a [`SubReader`], and states what it decodes as functions of those
//! bytes.
//!
//! Two decoded documents are compared as byte ranges, nibble by nibble, and as
//! trees of named fields ([`Structure`]).

pub mod diff;
pub mod document;
pub mod error;
pub mod fib;
pub mod from_c_struct;
pub mod from_reader;
pub mod list_table;
pub mod model;
pub mod piece_table;
pub mod property_set;
pub mod property_value;
pub mod stylesheet;
pub mod subreader;
pub mod summary;
pub mod text;
pub mod to_structure;
pub mod wire;

pub use diff::{
    compute_physical_differences, compute_structure_item_differences,
    compute_subsctructure_differences,
};
pub use document::{
    byte_range, decode_list_tables, decode_piece_table, decode_structures, decode_stylesheet,
    first_out_of_bounds, table_stream_name, AssemblyError, StructureOutcomes, WordDocument,
};
pub use error::DecodeError;
pub use fib::{fib_from_read_impl, Fib};
pub use from_c_struct::{FromCStruct, PLCF};
pub use from_reader::FromReader;
pub use model::{
    Bytes, ComparisonLogicalStructure, ComparisonPhysicalStructure, PhysicalStructure, Structure,
    StructureItem, FCPGDOLD, LST, LSTF, LSTs, LVL, LVLF, PCD, RgIdOffset, SHSHI, STD,
};
pub use property_set::{
    DictionaryPropertyType, PropertyIdentifier, PropertyIdentifierAndOffset, PropertySet,
    PropertySetStream, PropertySetStreamStart, PropertyType, RgProps,
};
pub use property_value::NormalPropertyType;
pub use subreader::SubReader;
pub use summary::{DocumentSummaryInfoStream, SummaryInformation};
pub use to_structure::ToStructure;
