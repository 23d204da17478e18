//! The property set stream: a header that names sections, and in each section
//! a directory of identifiers and offsets with a value at each offset.

use vstd::prelude::*;
use crate::error::DecodeError;
use crate::from_c_struct::FromCStruct;
use crate::from_reader::FromReader;
use crate::model::RgIdOffset;
use crate::property_value::{
    clsid_at, read_value, text_at, value_at, NormalPropertyType, PropertyValue,
};
use crate::subreader::SubReader;
use crate::text::string_from_utf8;
use crate::wire::{
    after_items, be_u16, fits, le_u16, le_u32, lemma_after_items_failed, u16_be_at, u16_le_at,
    u32_le_at,
};

verus! {

/// The number of bytes of the header of a property set stream before the list
/// of its sections.
pub const STREAM_START_SIZE: usize = 28;

/// The first bytes of a property set stream. The byte order mark and the
/// operating system fields are kept as read; nothing is required of them.
#[allow(non_snake_case)]
#[derive(Debug, PartialEq)]
pub struct PropertySetStreamStart {
    pub byteOrder: u16,
    pub version: u16,
    pub OSMajorVersion: u8,
    pub OSMinorVersion: u8,
    pub OSType: u16,
    pub applicationClsid: [u8; 16],
    pub num_property_sets: u32,
    pub rgIdOffset: Vec<RgIdOffset>,
}

/// The names that a dictionary property gives to property identifiers.
#[derive(Debug, PartialEq)]
pub struct DictionaryPropertyType {
    pub dictionary: Vec<(String, u32)>,
}

/// What kind of property an identifier of the directory stands for.
#[derive(Clone, Copy, Debug, PartialEq, Eq, Structural)]
pub enum PropertyIdentifier {
    Normal(u32),
    DictionaryProperty,
    CodePageProperty,
    LocaleProperty,
    BehaviourProperty,
}

/// A decoded property: a value, or the dictionary of a section.
#[derive(Debug, PartialEq)]
pub enum PropertyType {
    NormalPropertyType(NormalPropertyType),
    DictionaryPropertyType(DictionaryPropertyType),
}

/// One entry of the directory of a section.
#[allow(non_snake_case)]
#[derive(Clone, Copy, Debug, PartialEq)]
pub struct PropertyIdentifierAndOffset {
    pub propertyIdentifier: PropertyIdentifier,
    pub propertyOffset: u32,
}

/// A whole property set stream: its header and its sections.
#[allow(non_snake_case)]
#[derive(Debug, PartialEq)]
pub struct PropertySetStream {
    pub propertySetStreamVals: PropertySetStreamStart,
    pub propertySets: Vec<PropertySet>,
}

/// One section: its byte count, its directory, and the properties decoded
/// at the offsets of those directory entries that stand for a value or for the
/// dictionary, in the order of the directory.
#[allow(non_snake_case)]
#[derive(Debug, PartialEq)]
pub struct PropertySet {
    pub cb: u32,
    pub cProperties: u32,
    pub rgProperties: Vec<PropertyIdentifierAndOffset>,
    pub properties: Vec<PropertyType>,
}

/// A directory entry as stored: identifier and offset as plain numbers.
#[allow(non_snake_case)]
#[derive(Clone, Copy, Debug, PartialEq)]
pub struct RgProps {
    pub propID: u32,
    pub propOffset: u32,
}

/// What a decoded property holds.
pub ghost enum PropertyModel {
    Value(PropertyValue),
    Dictionary(Seq<(Seq<char>, u32)>),
}

/// The names and identifiers of `entries`, in order.
pub open spec fn dictionary_view(entries: Seq<(String, u32)>) -> Seq<(Seq<char>, u32)> {
    Seq::new(entries.len(), |i: int| (entries[i].0@, entries[i].1))
}

impl View for DictionaryPropertyType {
    type V = Seq<(Seq<char>, u32)>;

    open spec fn view(&self) -> Seq<(Seq<char>, u32)> {
        dictionary_view(self.dictionary@)
    }
}

impl View for PropertyType {
    type V = PropertyModel;

    open spec fn view(&self) -> PropertyModel {
        match self {
            PropertyType::NormalPropertyType(v) => PropertyModel::Value(v@),
            PropertyType::DictionaryPropertyType(d) => PropertyModel::Dictionary(d@),
        }
    }
}

/// What the properties of `v` hold, in order.
pub open spec fn properties_view(v: Seq<PropertyType>) -> Seq<PropertyModel> {
    Seq::new(v.len(), |i: int| v[i]@)
}

/// The kind of property that the identifier `val` stands for: 0 is the
/// dictionary, 1 the code page, 2 to 0x7FFFFFFF a normal property,
/// 0x80000000 the locale and 0x80000003 the behaviour; no other number is an
/// identifier.
pub open spec fn identifier_of(val: u32) -> Option<PropertyIdentifier> {
    if 0x0000_0002 <= val <= 0x7FFF_FFFF {
        Some(PropertyIdentifier::Normal(val))
    } else if val == 0 {
        Some(PropertyIdentifier::DictionaryProperty)
    } else if val == 1 {
        Some(PropertyIdentifier::CodePageProperty)
    } else if val == 0x8000_0000 {
        Some(PropertyIdentifier::LocaleProperty)
    } else if val == 0x8000_0003 {
        Some(PropertyIdentifier::BehaviourProperty)
    } else {
        None
    }
}

impl PropertyIdentifier {
    /// The kind of property that `val` stands for, or nothing where `val` is
    /// no identifier.
    pub fn checked_from_u32(val: u32) -> (r: Option<Self>)
        ensures
            r == identifier_of(val),
    {
        if 0x0000_0002 <= val && val <= 0x7FFF_FFFF {
            Some(PropertyIdentifier::Normal(val))
        } else if val == 0 {
            Some(PropertyIdentifier::DictionaryProperty)
        } else if val == 1 {
            Some(PropertyIdentifier::CodePageProperty)
        } else if val == 0x8000_0000 {
            Some(PropertyIdentifier::LocaleProperty)
        } else if val == 0x8000_0003 {
            Some(PropertyIdentifier::BehaviourProperty)
        } else {
            None
        }
    }

    /// The kind of property that the identifier `val` stands for.
    pub fn from_u32(val: u32) -> (r: Self)
        requires
            identifier_of(val) is Some,
        ensures
            Some(r) == identifier_of(val),
    {
        if 0x0000_0002 <= val && val <= 0x7FFF_FFFF {
            PropertyIdentifier::Normal(val)
        } else if val == 0 {
            PropertyIdentifier::DictionaryProperty
        } else if val == 1 {
            PropertyIdentifier::CodePageProperty
        } else if val == 0x8000_0000 {
            PropertyIdentifier::LocaleProperty
        } else {
            PropertyIdentifier::BehaviourProperty
        }
    }
}

impl DictionaryPropertyType {
    /// The first place in `entries` whose identifier is `id`, or the length
    /// of `entries` where none is.
    pub open spec fn first_with(entries: Seq<(String, u32)>, id: u32) -> int
        decreases entries.len(),
    {
        if entries.len() == 0 {
            0
        } else if entries[0].1 == id {
            0
        } else {
            1 + Self::first_with(entries.skip(1), id)
        }
    }

    /// The name that the dictionary gives to the property `id`: that of the
    /// first entry with this identifier.
    pub fn get_name(&self, id: u32) -> (r: Option<&String>)
        ensures
            match r {
                Some(name) => {
                    let i = Self::first_with(self.dictionary@, id);
                    &&& 0 <= i < self.dictionary@.len()
                    &&& self.dictionary@[i].1 == id
                    &&& *name == self.dictionary@[i].0
                    &&& forall|j: int| 0 <= j < i ==> self.dictionary@[j].1 != id
                },
                None => forall|j: int| 0 <= j < self.dictionary@.len() ==> self.dictionary@[j].1 != id,
            },
    {
        let mut i: usize = 0;
        while i < self.dictionary.len()
            invariant
                i <= self.dictionary@.len(),
                forall|j: int| 0 <= j < i ==> self.dictionary@[j].1 != id,
            decreases self.dictionary@.len() - i,
        {
            if self.dictionary[i].1 == id {
                proof {
                    Self::lemma_first_with(self.dictionary@, id, i as int);
                }
                return Some(&self.dictionary[i].0);
            }
            i = i + 1;
        }
        None
    }

    /// The first place with `id` is the place before which no entry has `id`
    /// and at which one has.
    pub proof fn lemma_first_with(entries: Seq<(String, u32)>, id: u32, i: int)
        requires
            0 <= i < entries.len(),
            entries[i].1 == id,
            forall|j: int| 0 <= j < i ==> entries[j].1 != id,
        ensures
            Self::first_with(entries, id) == i,
        decreases i,
    {
        if i > 0 {
            let rest = entries.skip(1);
            assert forall|j: int| 0 <= j < i - 1 implies rest[j].1 != id by {
                assert(rest[j] == entries[j + 1]);
            }
            Self::lemma_first_with(rest, id, i - 1);
        }
    }
}

/// One entry of a dictionary at `p`: an identifier, and a name stored as a
/// count of bytes and the bytes, read as UTF-8.
pub open spec fn dictionary_entry_at(s: Seq<u8>, p: int) -> Result<((Seq<char>, u32), int), DecodeError> {
    if !fits(s, p, 4) {
        Err(DecodeError::UnexpectedEof)
    } else {
        match text_at(s, p + 4, false) {
            Ok((name, end)) => Ok(((name, le_u32(s, p)), end)),
            Err(e) => Err(e),
        }
    }
}

/// The `k` dictionary entries stored one after another from `p` on, and the
/// place behind the last.
pub open spec fn dictionary_entries_at(s: Seq<u8>, p: int, k: nat) -> Result<
    (Seq<(Seq<char>, u32)>, int),
    DecodeError,
>
    decreases k,
{
    if k == 0 {
        Ok((Seq::empty(), p))
    } else {
        match dictionary_entry_at(s, p) {
            Err(e) => Err(e),
            Ok((entry, q)) => match dictionary_entries_at(s, q, (k - 1) as nat) {
                Err(e) => Err(e),
                Ok((rest, end)) => Ok((seq![entry] + rest, end)),
            },
        }
    }
}

/// The dictionary stored at `at`: a count and that many entries.
pub open spec fn dictionary_at(s: Seq<u8>, at: int) -> Result<(Seq<(Seq<char>, u32)>, int), DecodeError> {
    if !fits(s, at, 4) {
        Err(DecodeError::UnexpectedEof)
    } else {
        dictionary_entries_at(s, at + 4, le_u32(s, at) as nat)
    }
}

impl FromReader for DictionaryPropertyType {
    /// A dictionary ends behind the last of its entries.
    open spec fn extent(s: Seq<u8>, base: int, at: int) -> Result<int, DecodeError> {
        match dictionary_at(s, at) {
            Ok((_, end)) => Ok(end),
            Err(e) => Err(e),
        }
    }

    /// The entries are those stored, in order.
    open spec fn decoded(&self, s: Seq<u8>, base: int, at: int) -> bool {
        dictionary_at(s, at) matches Ok((entries, _)) && self@ == entries
    }

    #[verifier::loop_isolation(false)]
    fn from_reader(reader: &mut SubReader<'_>) -> (r: Result<Self, DecodeError>) {
        let ghost s = reader.stream();
        let ghost at = reader.pos() as int;
        let c_entries: u32 = reader.read_u32_le()?;
        let mut dict_map: Vec<(String, u32)> = Vec::new();
        let mut i: u32 = 0;
        while i < c_entries
            invariant
                i <= c_entries,
                reader.stream() == s,
                reader.base() == old(reader).base(),
                dict_map@.len() == i,
                dictionary_entries_at(s, at + 4, c_entries as nat) == match dictionary_entries_at(
                    s,
                    reader.pos() as int,
                    (c_entries - i) as nat,
                ) {
                    Ok((rest, end)) => Ok::<(Seq<(Seq<char>, u32)>, int), DecodeError>(
                        (dictionary_view(dict_map@) + rest, end),
                    ),
                    Err(e) => Err(e),
                },
            decreases c_entries - i,
        {
            let ghost before = dictionary_view(dict_map@);
            let property_id: u32 = reader.read_u32_le()?;
            let length: u32 = reader.read_u32_le()?;
            let buffer: Vec<u8> = reader.read_exact(length as usize)?;
            let key: String = match string_from_utf8(buffer) {
                Some(key) => key,
                None => {
                    return Err(DecodeError::InvalidText);
                },
            };
            let ghost entry = (key@, property_id);
            dict_map.push((key, property_id));
            proof {
                assert(dictionary_view(dict_map@) =~= before + seq![entry]);
                match dictionary_entries_at(s, reader.pos() as int, (c_entries - i - 1) as nat) {
                    Ok((rest, end)) => {
                        assert(before + (seq![entry] + rest) =~= dictionary_view(dict_map@) + rest);
                    },
                    Err(e) => {},
                }
            }
            i = i + 1;
        }
        assert(dictionary_view(dict_map@) + Seq::<(Seq<char>, u32)>::empty() =~= dictionary_view(
            dict_map@,
        ));
        Ok(DictionaryPropertyType { dictionary: dict_map })
    }
}

/// The place of the record of section `i` in the header at `at`.
pub open spec fn section_record_place(at: int, i: int) -> int {
    at + STREAM_START_SIZE + 20 * i
}

/// The record of section `i` in the header at `at`.
pub open spec fn section_record(s: Seq<u8>, at: int, i: int) -> RgIdOffset {
    RgIdOffset::spec_from_bytes(
        s.subrange(section_record_place(at, i), section_record_place(at, i) + 20),
    )
}

impl FromReader for PropertySetStreamStart {
    /// The header is its fixed part and one record of twenty bytes for each
    /// section that the fixed part declares.
    open spec fn extent(s: Seq<u8>, base: int, at: int) -> Result<int, DecodeError> {
        if !fits(s, at, STREAM_START_SIZE as int) {
            Err(DecodeError::UnexpectedEof)
        } else if !fits(s, at + STREAM_START_SIZE, 20 * le_u32(s, at + 24)) {
            Err(DecodeError::UnexpectedEof)
        } else {
            Ok(at + STREAM_START_SIZE + 20 * le_u32(s, at + 24))
        }
    }

    /// The two version bytes are taken out of one big-endian word: the minor
    /// version is its low byte, and the major version is the low byte of the
    /// word with only its high byte kept.
    open spec fn decoded(&self, s: Seq<u8>, base: int, at: int) -> bool {
        &&& self.byteOrder == le_u16(s, at)
        &&& self.version == le_u16(s, at + 2)
        &&& self.OSMajorVersion == (be_u16(s, at + 4) & 0xFF00) as u8
        &&& self.OSMinorVersion == (be_u16(s, at + 4) & 0x00FF) as u8
        &&& self.OSType == le_u16(s, at + 6)
        &&& self.applicationClsid == clsid_at(s, at + 8)
        &&& self.num_property_sets == le_u32(s, at + 24)
        &&& self.rgIdOffset@.len() == self.num_property_sets
        &&& forall|i: int|
            0 <= i < self.rgIdOffset@.len() ==> #[trigger] self.rgIdOffset@[i] == section_record(
                s,
                at,
                i,
            )
    }

    #[allow(non_snake_case)]
    #[verifier::loop_isolation(false)]
    fn from_reader(reader: &mut SubReader<'_>) -> (r: Result<Self, DecodeError>) {
        let ghost s = reader.stream();
        let ghost at = reader.pos() as int;
        let b: &[u8] = reader.take(STREAM_START_SIZE)?;
        let byteorder: u16 = u16_le_at(b, 0);
        let version: u16 = u16_le_at(b, 2);
        let os_major_minor_bitfield: u16 = u16_be_at(b, 4);
        assert(os_major_minor_bitfield & 0x00FF <= 0xFF) by (bit_vector);
        let OSMajorVersion: u8 = #[verifier::truncate]
        ((os_major_minor_bitfield & 0xFF00) as u8);
        let OSMinorVersion: u8 = (os_major_minor_bitfield & 0x00FF) as u8;
        let OSType: u16 = u16_le_at(b, 6);
        let applicationClsid: [u8; 16] = [
            b[8],
            b[9],
            b[10],
            b[11],
            b[12],
            b[13],
            b[14],
            b[15],
            b[16],
            b[17],
            b[18],
            b[19],
            b[20],
            b[21],
            b[22],
            b[23],
        ];
        let cSections: u32 = u32_le_at(b, 24);
        let mut rg_offsets: Vec<RgIdOffset> = Vec::new();
        let mut i: u32 = 0;
        while i < cSections
            invariant
                i <= cSections,
                reader.stream() == s,
                reader.base() == old(reader).base(),
                reader.pos() == section_record_place(at, i as int),
                fits(s, at + STREAM_START_SIZE, 20 * i),
                rg_offsets@.len() == i,
                forall|j: int| 0 <= j < i ==> #[trigger] rg_offsets@[j] == section_record(s, at, j),
            decreases cSections - i,
        {
            let buffer_bytes: &[u8] = reader.take(20)?;
            rg_offsets.push(RgIdOffset::from_bytes(buffer_bytes));
            i = i + 1;
        }
        Ok(
            PropertySetStreamStart {
                byteOrder: byteorder,
                version,
                OSMajorVersion,
                OSMinorVersion,
                OSType,
                applicationClsid,
                num_property_sets: cSections,
                rgIdOffset: rg_offsets,
            },
        )
    }
}

/// The place of entry `i` of the directory of the section whose header is at
/// `at`.
pub open spec fn directory_place(at: int, i: int) -> int {
    at + 8 + 8 * i
}

/// Where the directory entry after the one at `p` starts. An entry is an
/// identifier and an offset; a number that is no identifier makes the section
/// malformed.
pub open spec fn directory_step(s: Seq<u8>) -> spec_fn(int, int) -> Result<int, DecodeError> {
    |i: int, p: int|
        if !fits(s, p, 4) {
            Err(DecodeError::UnexpectedEof)
        } else if identifier_of(le_u32(s, p)) is None {
            Err(DecodeError::MalformedLayout)
        } else if !fits(s, p + 4, 4) {
            Err(DecodeError::UnexpectedEof)
        } else {
            Ok(p + 8)
        }
}

/// The directory entry stored at `p`.
pub open spec fn directory_entry_at(s: Seq<u8>, p: int) -> PropertyIdentifierAndOffset {
    PropertyIdentifierAndOffset {
        propertyIdentifier: identifier_of(le_u32(s, p))->Some_0,
        propertyOffset: le_u32(s, p + 4),
    }
}

/// The properties of the directory entries from entry `from` on, and where
/// reading ends. The reader is at `pos`; `base` is the start of the section,
/// from which the offsets count. An entry for a normal property has a value
/// at its offset and an entry for the dictionary a dictionary; an entry of
/// another kind has nothing decoded and leaves the reader where it is.
pub open spec fn properties_at(
    s: Seq<u8>,
    base: int,
    dir: Seq<PropertyIdentifierAndOffset>,
    from: nat,
    pos: int,
) -> Result<(Seq<PropertyModel>, int), DecodeError>
    decreases dir.len() - from,
{
    if from >= dir.len() {
        Ok((Seq::empty(), pos))
    } else {
        let place = base + dir[from as int].propertyOffset;
        match dir[from as int].propertyIdentifier {
            PropertyIdentifier::Normal(_) => match value_at(s, place) {
                Err(e) => Err(e),
                Ok((v, q)) => match properties_at(s, base, dir, from + 1, q) {
                    Err(e) => Err(e),
                    Ok((rest, end)) => Ok((seq![PropertyModel::Value(v)] + rest, end)),
                },
            },
            PropertyIdentifier::DictionaryProperty => match dictionary_at(s, place) {
                Err(e) => Err(e),
                Ok((d, q)) => match properties_at(s, base, dir, from + 1, q) {
                    Err(e) => Err(e),
                    Ok((rest, end)) => Ok((seq![PropertyModel::Dictionary(d)] + rest, end)),
                },
            },
            _ => properties_at(s, base, dir, from + 1, pos),
        }
    }
}

/// The directory of the section whose header is at `at`.
pub open spec fn directory_at(s: Seq<u8>, at: int) -> Seq<PropertyIdentifierAndOffset> {
    Seq::new(le_u32(s, at + 4) as nat, |i: int| directory_entry_at(s, directory_place(at, i)))
}

/// What the properties of the section whose header is at `start` hold, where
/// the section decodes.
pub open spec fn section_properties(s: Seq<u8>, start: int) -> Seq<PropertyModel> {
    properties_at(
        s,
        start,
        directory_at(s, start),
        0,
        directory_place(start, le_u32(s, start + 4) as int),
    )->Ok_0.0
}

/// Whether a directory entry has a property decoded at its offset: a normal
/// property has a value there, and the entry with identifier 0 the
/// dictionary. The entries for code page, locale and behaviour have none.
pub open spec fn bears_property(entry: PropertyIdentifierAndOffset) -> bool {
    entry.propertyIdentifier is Normal || entry.propertyIdentifier is DictionaryProperty
}

/// The number of entries from entry `from` up to, and without, entry `to`
/// that bear a property.
pub open spec fn bearing_between(dir: Seq<PropertyIdentifierAndOffset>, from: nat, to: nat) -> nat
    decreases to,
{
    if to <= from {
        0
    } else if bears_property(dir[to - 1]) {
        bearing_between(dir, from, (to - 1) as nat) + 1
    } else {
        bearing_between(dir, from, (to - 1) as nat)
    }
}

/// The place among the properties of a section of the property of
/// directory entry `i`: as many entries before it bear a property.
pub open spec fn place_of(dir: Seq<PropertyIdentifierAndOffset>, i: nat) -> nat {
    bearing_between(dir, 0, i)
}

/// What is decoded at the offset of the directory entry `entry` of a section
/// that starts at `base`.
pub open spec fn property_at_offset(s: Seq<u8>, base: int, entry: PropertyIdentifierAndOffset) -> PropertyModel {
    if entry.propertyIdentifier is Normal {
        PropertyModel::Value(value_at(s, base + entry.propertyOffset)->Ok_0.0)
    } else {
        PropertyModel::Dictionary(dictionary_at(s, base + entry.propertyOffset)->Ok_0.0)
    }
}

/// The count of the entries that bear a property, taken from the front.
pub proof fn lemma_bearing_from_front(dir: Seq<PropertyIdentifierAndOffset>, from: nat, to: nat)
    requires
        from < to,
    ensures
        bearing_between(dir, from, to) == bearing_between(dir, from + 1, to) + if bears_property(
            dir[from as int],
        ) {
            1nat
        } else {
            0nat
        },
    decreases to,
{
    reveal_with_fuel(bearing_between, 3);
    if from + 1 < to {
        lemma_bearing_from_front(dir, from, (to - 1) as nat);
    }
}

/// Where the properties of the entries from `from` on decode, the property
/// of an entry that bears one stands at the entry's place among them, and is
/// what is decoded at the entry's own offset.
pub proof fn lemma_properties_stand_at_their_places(
    s: Seq<u8>,
    base: int,
    dir: Seq<PropertyIdentifierAndOffset>,
    from: nat,
    pos: int,
    i: int,
)
    requires
        properties_at(s, base, dir, from, pos) is Ok,
        from <= i < dir.len(),
        bears_property(dir[i]),
    ensures
        bearing_between(dir, from, i as nat) < properties_at(s, base, dir, from, pos)->Ok_0.0.len(),
        properties_at(s, base, dir, from, pos)->Ok_0.0[bearing_between(dir, from, i as nat) as int]
            == property_at_offset(s, base, dir[i]),
        dir[i].propertyIdentifier is Normal ==> value_at(s, base + dir[i].propertyOffset) is Ok,
    decreases dir.len() - from,
{
    let place = base + dir[from as int].propertyOffset;
    let all = properties_at(s, base, dir, from, pos)->Ok_0.0;
    let k = bearing_between(dir, from, i as nat);
    if from < i {
        lemma_bearing_from_front(dir, from, i as nat);
    } else {
        assert(k == 0);
    }
    match dir[from as int].propertyIdentifier {
        PropertyIdentifier::Normal(_) => {
            let first = value_at(s, place);
            assert(first is Ok);
            let rest = properties_at(s, base, dir, from + 1, first->Ok_0.1);
            assert(rest is Ok);
            assert(all == seq![PropertyModel::Value(first->Ok_0.0)] + rest->Ok_0.0);
            if from < i {
                lemma_properties_stand_at_their_places(s, base, dir, from + 1, first->Ok_0.1, i);
                assert(all[k as int] == rest->Ok_0.0[k - 1]);
            } else {
                assert(all[0] == PropertyModel::Value(first->Ok_0.0));
            }
        },
        PropertyIdentifier::DictionaryProperty => {
            let first = dictionary_at(s, place);
            assert(first is Ok);
            let rest = properties_at(s, base, dir, from + 1, first->Ok_0.1);
            assert(rest is Ok);
            assert(all == seq![PropertyModel::Dictionary(first->Ok_0.0)] + rest->Ok_0.0);
            if from < i {
                lemma_properties_stand_at_their_places(s, base, dir, from + 1, first->Ok_0.1, i);
                assert(all[k as int] == rest->Ok_0.0[k - 1]);
            } else {
                assert(all[0] == PropertyModel::Dictionary(first->Ok_0.0));
            }
        },
        _ => {
            assert(all == properties_at(s, base, dir, from + 1, pos)->Ok_0.0);
            lemma_properties_stand_at_their_places(s, base, dir, from + 1, pos, i);
        },
    }
}

/// A directory that decodes takes eight bytes for each entry.
pub proof fn lemma_directory_extent(s: Seq<u8>, at: int, k: nat)
    requires
        after_items(directory_step(s), at, k) is Ok,
    ensures
        after_items(directory_step(s), at, k) == Ok::<int, DecodeError>(at + 8 * k),
    decreases k,
{
    if k > 0 {
        lemma_directory_extent(s, at, (k - 1) as nat);
    }
}

/// Law: in a section that decodes, the property of each directory entry that
/// bears one is what is decoded at that entry's own offset, counted from the
/// start of the section, and stands among the properties of the section at
/// the entry's place.
pub proof fn lemma_property_of_entry(s: Seq<u8>, start: int, i: int)
    requires
        PropertySet::extent(s, start, start) is Ok,
        0 <= i < le_u32(s, start + 4),
        bears_property(directory_at(s, start)[i]),
    ensures
        place_of(directory_at(s, start), i as nat) < section_properties(s, start).len(),
        section_properties(s, start)[place_of(directory_at(s, start), i as nat) as int]
            == property_at_offset(s, start, directory_at(s, start)[i]),
        directory_at(s, start)[i].propertyIdentifier is Normal ==> value_at(
            s,
            start + directory_at(s, start)[i].propertyOffset,
        ) is Ok,
{
    let n = le_u32(s, start + 4) as nat;
    lemma_directory_extent(s, start + 8, n);
    lemma_properties_stand_at_their_places(
        s,
        start,
        directory_at(s, start),
        0,
        directory_place(start, n as int),
        i,
    );
}

/// Reads the `count` entries of a directory from the reader's position on.
#[verifier::loop_isolation(false)]
fn read_directory(reader: &mut SubReader<'_>, count: u32) -> (r: Result<
    Vec<PropertyIdentifierAndOffset>,
    DecodeError,
>)
    ensures
        final(reader).stream() == old(reader).stream(),
        final(reader).base() == old(reader).base(),
        match after_items(
            directory_step(old(reader).stream()),
            old(reader).pos() as int,
            count as nat,
        ) {
            Ok(end) => r matches Ok(dir) && final(reader).pos() == end && end == old(reader).pos()
                + 8 * count && dir@.len() == count && forall|j: int|
                0 <= j < count ==> #[trigger] dir@[j] == directory_entry_at(
                    old(reader).stream(),
                    old(reader).pos() + 8 * j,
                ),
            Err(e) => r == Err::<Vec<PropertyIdentifierAndOffset>, DecodeError>(e),
        },
{
    let ghost s = reader.stream();
    let ghost start = reader.pos() as int;
    let ghost step = directory_step(s);
    let mut dir: Vec<PropertyIdentifierAndOffset> = Vec::new();
    let mut i: u32 = 0;
    while i < count
        invariant
            i <= count,
            reader.stream() == s,
            reader.base() == old(reader).base(),
            reader.pos() == start + 8 * i,
            after_items(step, start, i as nat) == Ok::<int, DecodeError>(reader.pos() as int),
            dir@.len() == i,
            forall|j: int| 0 <= j < i ==> #[trigger] dir@[j] == directory_entry_at(s, start + 8 * j),
        decreases count - i,
    {
        let ghost p = reader.pos() as int;
        proof {
            assert(after_items(step, start, (i + 1) as nat) == step(i as int, p));
            if step(i as int, p) is Err {
                lemma_after_items_failed(step, start, (i + 1) as nat, count as nat);
            }
        }
        let raw: u32 = reader.read_u32_le()?;
        let identifier: PropertyIdentifier = match PropertyIdentifier::checked_from_u32(raw) {
            Some(identifier) => identifier,
            None => {
                return Err(DecodeError::MalformedLayout);
            },
        };
        let offset: u32 = reader.read_u32_le()?;
        dir.push(PropertyIdentifierAndOffset { propertyIdentifier: identifier, propertyOffset: offset });
        i = i + 1;
    }
    Ok(dir)
}

/// Reads the property of directory entry `entry`, where it bears one.
fn read_property(reader: &mut SubReader<'_>, entry: PropertyIdentifierAndOffset) -> (r: Result<
    Option<PropertyType>,
    DecodeError,
>)
    requires
        old(reader).stream().len() <= usize::MAX,
    ensures
        final(reader).stream() == old(reader).stream(),
        final(reader).base() == old(reader).base(),
        match entry.propertyIdentifier {
            PropertyIdentifier::Normal(_) => match value_at(
                old(reader).stream(),
                old(reader).base() + entry.propertyOffset,
            ) {
                Ok((v, end)) => r matches Ok(Some(property)) && property@ == PropertyModel::Value(v)
                    && final(reader).pos() == end,
                Err(e) => r matches Err(f) && f == e,
            },
            PropertyIdentifier::DictionaryProperty => match dictionary_at(
                old(reader).stream(),
                old(reader).base() + entry.propertyOffset,
            ) {
                Ok((d, end)) => r matches Ok(Some(property)) && property@
                    == PropertyModel::Dictionary(d) && final(reader).pos() == end,
                Err(e) => r matches Err(f) && f == e,
            },
            _ => r matches Ok(None) && final(reader).pos() == old(reader).pos(),
        },
{
    match entry.propertyIdentifier {
        PropertyIdentifier::Normal(_) => {
            match reader.seek(entry.propertyOffset as usize) {
                Ok(_) => {},
                Err(e) => {
                    return Err(e);
                },
            }
            let normal: NormalPropertyType = read_value(reader)?;
            Ok(Some(PropertyType::NormalPropertyType(normal)))
        },
        PropertyIdentifier::DictionaryProperty => {
            match reader.seek(entry.propertyOffset as usize) {
                Ok(_) => {},
                Err(e) => {
                    return Err(e);
                },
            }
            let dictionary: DictionaryPropertyType = DictionaryPropertyType::from_reader(reader)?;
            Ok(Some(PropertyType::DictionaryPropertyType(dictionary)))
        },
        _ => Ok(None),
    }
}

/// Reads the properties of the directory `dir`, in its order.
fn read_properties(reader: &mut SubReader<'_>, dir: &Vec<PropertyIdentifierAndOffset>) -> (r: Result<
    Vec<PropertyType>,
    DecodeError,
>)
    requires
        old(reader).stream().len() <= usize::MAX,
    ensures
        final(reader).stream() == old(reader).stream(),
        final(reader).base() == old(reader).base(),
        match properties_at(
            old(reader).stream(),
            old(reader).base() as int,
            dir@,
            0,
            old(reader).pos() as int,
        ) {
            Ok((v, end)) => r matches Ok(properties) && properties_view(properties@) == v
                && final(reader).pos() == end,
            Err(e) => r matches Err(f) && f == e,
        },
{
    let ghost s = reader.stream();
    let ghost base = reader.base() as int;
    let ghost start = reader.pos() as int;
    let mut properties: Vec<PropertyType> = Vec::new();
    let mut k: usize = 0;
    while k < dir.len()
        invariant
            k <= dir@.len(),
            s.len() <= usize::MAX,
            s == old(reader).stream(),
            base == old(reader).base(),
            start == old(reader).pos(),
            reader.stream() == s,
            reader.base() == base,
            properties_at(s, base, dir@, 0, start) == match properties_at(
                s,
                base,
                dir@,
                k as nat,
                reader.pos() as int,
            ) {
                Ok((rest, end)) => Ok::<(Seq<PropertyModel>, int), DecodeError>(
                    (properties_view(properties@) + rest, end),
                ),
                Err(e) => Err(e),
            },
        decreases dir@.len() - k,
    {
        let ghost before = properties_view(properties@);
        let ghost here = reader.pos() as int;
        match read_property(reader, dir[k]) {
            Err(e) => {
                return Err(e);
            },
            Ok(None) => {},
            Ok(Some(property)) => {
                let ghost item = property@;
                properties.push(property);
                proof {
                    assert(properties_view(properties@) =~= before + seq![item]);
                    match properties_at(s, base, dir@, (k + 1) as nat, reader.pos() as int) {
                        Ok((rest, end)) => {
                            assert(before + (seq![item] + rest) =~= properties_view(properties@)
                                + rest);
                        },
                        Err(e) => {},
                    }
                }
            },
        }
        k = k + 1;
    }
    assert(properties_view(properties@) + Seq::<PropertyModel>::empty() =~= properties_view(
        properties@,
    ));
    Ok(properties)
}

impl FromReader for PropertySet {
    /// A section is its byte count, the count of its directory entries, the
    /// directory, and the properties at the offsets that the directory names.
    /// Reading ends behind the last property that was decoded.
    open spec fn extent(s: Seq<u8>, base: int, at: int) -> Result<int, DecodeError> {
        if !fits(s, at, 8) {
            Err(DecodeError::UnexpectedEof)
        } else {
            match after_items(directory_step(s), at + 8, le_u32(s, at + 4) as nat) {
                Err(e) => Err(e),
                Ok(p) => match properties_at(s, base, directory_at(s, at), 0, p) {
                    Ok((_, end)) => Ok(end),
                    Err(e) => Err(e),
                },
            }
        }
    }

    /// The directory is kept whole; the properties are those of the entries
    /// that bear one, in the order of the directory.
    open spec fn decoded(&self, s: Seq<u8>, base: int, at: int) -> bool {
        &&& self.cb == le_u32(s, at)
        &&& self.cProperties == le_u32(s, at + 4)
        &&& self.rgProperties@ == directory_at(s, at)
        &&& properties_at(s, base, directory_at(s, at), 0, directory_place(at, self.cProperties as int))
            matches Ok((v, _)) && properties_view(self.properties@) == v
    }

    #[allow(non_snake_case)]
    fn from_reader(reader: &mut SubReader<'_>) -> (r: Result<Self, DecodeError>) {
        let ghost s = reader.stream();
        let ghost at = reader.pos() as int;
        let stream_len: usize = reader.get_ref().len();
        let cb: u32 = reader.read_u32_le()?;
        let cProperties: u32 = reader.read_u32_le()?;
        let rgProperties: Vec<PropertyIdentifierAndOffset> = read_directory(reader, cProperties)?;
        assert(rgProperties@ =~= directory_at(s, at));
        let properties: Vec<PropertyType> = read_properties(reader, &rgProperties)?;
        Ok(PropertySet { cb, cProperties, rgProperties, properties })
    }
}

/// The start of section `i` of the stream whose header is at `at`, for a
/// reader with origin `base`.
pub open spec fn section_start(s: Seq<u8>, base: int, at: int, i: int) -> int {
    base + section_record(s, at, i).sectionOffset
}

/// Passes over section `i` where it decodes, and fails as the section does
/// where it does not.
pub open spec fn section_step(s: Seq<u8>, base: int, at: int) -> spec_fn(int, int) -> Result<
    int,
    DecodeError,
> {
    |i: int, p: int|
        match PropertySet::extent(s, section_start(s, base, at, i), section_start(s, base, at, i)) {
            Ok(_) => Ok(p),
            Err(e) => Err(e),
        }
}

/// Whether `sets[i]` is section `i` of the stream whose header is at `at`.
pub open spec fn section_matches(sets: Seq<PropertySet>, s: Seq<u8>, base: int, at: int, i: int) -> bool {
    sets[i].decoded(s, section_start(s, base, at, i), section_start(s, base, at, i))
}

/// Decodes the section that starts `offset` bytes after the origin of
/// `reader`.
fn read_section(reader: &SubReader<'_>, offset: u32) -> (r: Result<PropertySet, DecodeError>)
    requires
        reader.stream().len() <= usize::MAX,
    ensures
        match PropertySet::extent(
            reader.stream(),
            reader.base() + offset,
            reader.base() + offset,
        ) {
            Ok(_) => r matches Ok(set) && set.decoded(
                reader.stream(),
                reader.base() + offset,
                reader.base() + offset,
            ),
            Err(e) => r matches Err(f) && f == e,
        },
{
    let mut subreader: SubReader<'_> = match reader.section(offset as usize) {
        Some(subreader) => subreader,
        None => {
            return Err(DecodeError::UnexpectedEof);
        },
    };
    PropertySet::from_reader(&mut subreader)
}

impl FromReader for PropertySetStream {
    /// The stream decodes where its header does and each section does, taken
    /// in the order of the header; the reader is left behind the header.
    open spec fn extent(s: Seq<u8>, base: int, at: int) -> Result<int, DecodeError> {
        match PropertySetStreamStart::extent(s, base, at) {
            Err(e) => Err(e),
            Ok(end) => after_items(section_step(s, base, at), end, le_u32(s, at + 24) as nat),
        }
    }

    /// Each section is decoded from the place that its record names, counted
    /// from the reader's origin, and the offsets in a section count from the
    /// start of the section.
    open spec fn decoded(&self, s: Seq<u8>, base: int, at: int) -> bool {
        &&& self.propertySetStreamVals.decoded(s, base, at)
        &&& self.propertySets@.len() == self.propertySetStreamVals.rgIdOffset@.len()
        &&& forall|i: int|
            0 <= i < self.propertySets@.len() ==> #[trigger] section_matches(
                self.propertySets@,
                s,
                base,
                at,
                i,
            )
    }

    fn from_reader(reader: &mut SubReader<'_>) -> (r: Result<Self, DecodeError>) {
        let ghost s = reader.stream();
        let ghost at = reader.pos() as int;
        let ghost base = reader.base() as int;
        let stream_len: usize = reader.get_ref().len();
        let property_stream_set_start = PropertySetStreamStart::from_reader(reader)?;
        let ghost step = section_step(s, base, at);
        let ghost end = reader.pos() as int;
        let ghost n = property_stream_set_start.rgIdOffset@.len();
        let mut property_sets: Vec<PropertySet> = Vec::new();
        let mut i: usize = 0;
        while i < property_stream_set_start.rgIdOffset.len()
            invariant
                i <= n,
                n == property_stream_set_start.rgIdOffset@.len(),
                n == le_u32(s, at + 24),
                s == old(reader).stream(),
                s.len() <= usize::MAX,
                base == old(reader).base(),
                at == old(reader).pos(),
                step == section_step(s, base, at),
                PropertySetStreamStart::extent(s, base, at) == Ok::<int, DecodeError>(end),
                property_stream_set_start.decoded(s, base, at),
                reader.stream() == s,
                reader.base() == base,
                reader.pos() == end,
                after_items(step, end, i as nat) == Ok::<int, DecodeError>(end),
                property_sets@.len() == i,
                forall|j: int| 0 <= j < i ==> #[trigger] section_matches(property_sets@, s, base, at, j),
            decreases n - i,
        {
            let ghost before = property_sets@;
            let offset: u32 = property_stream_set_start.rgIdOffset[i].sectionOffset;
            proof {
                assert(property_stream_set_start.rgIdOffset@[i as int] == section_record(s, at, i as int));
                assert(base + offset == section_start(s, base, at, i as int));
                assert(after_items(step, end, (i + 1) as nat) == step(i as int, end));
                if step(i as int, end) is Err {
                    lemma_after_items_failed(step, end, (i + 1) as nat, n as nat);
                }
            }
            let property_set: PropertySet = match read_section(reader, offset) {
                Ok(property_set) => property_set,
                Err(e) => {
                    return Err(e);
                },
            };
            property_sets.push(property_set);
            assert forall|j: int| 0 <= j < i + 1 implies #[trigger] section_matches(
                property_sets@,
                s,
                base,
                at,
                j,
            ) by {
                if j < i {
                    assert(section_matches(before, s, base, at, j));
                    assert(property_sets@[j] == before[j]);
                }
            }
            i = i + 1;
        }
        Ok(
            PropertySetStream {
                propertySetStreamVals: property_stream_set_start,
                propertySets: property_sets,
            },
        )
    }
}

} // verus!
