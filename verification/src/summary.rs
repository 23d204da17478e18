//! The two summaries of a document: named fields taken out of the first
//! section of a property set stream, and the custom properties that a second
//! section names.

use vstd::prelude::*;
use crate::error::DecodeError;
use crate::from_reader::FromReader;
use crate::property_set::{
    bears_property, directory_at, lemma_property_of_entry, place_of,
    properties_view, section_matches, section_properties, section_start, DictionaryPropertyType,
    PropertyIdentifier, PropertyIdentifierAndOffset, PropertyModel, PropertySet, PropertySetStream,
    PropertyType,
};
use crate::property_value::{clone_value, value_at, NormalPropertyType, PropertyValue};
use crate::subreader::SubReader;
use crate::wire::le_u32;

verus! {

/// The summary of a document: title, author and the like. A field is absent
/// where the stream assigns it nothing.
#[allow(non_snake_case)]
#[derive(Debug, PartialEq)]
pub struct SummaryInformation {
    pub title: Option<NormalPropertyType>,
    pub subject: Option<NormalPropertyType>,
    pub author: Option<NormalPropertyType>,
    pub keywords: Option<NormalPropertyType>,
    pub comments: Option<NormalPropertyType>,
    pub template: Option<NormalPropertyType>,
    pub lastAuthor: Option<NormalPropertyType>,
    pub revisionNumber: Option<NormalPropertyType>,
    pub applicationName: Option<NormalPropertyType>,
    pub editTime: Option<NormalPropertyType>,
    pub lastPrinted: Option<NormalPropertyType>,
    pub create_dtm: Option<NormalPropertyType>,
    pub lastSave_dtm: Option<NormalPropertyType>,
    pub pageCount: Option<NormalPropertyType>,
    pub wordCount: Option<NormalPropertyType>,
    pub charCount: Option<NormalPropertyType>,
    pub doc_security: Option<NormalPropertyType>,
}

/// The extended summary of a document, and the custom properties that its
/// stream names.
#[derive(Debug, PartialEq)]
pub struct DocumentSummaryInfoStream {
    pub codepage: Option<NormalPropertyType>,
    pub category: Option<NormalPropertyType>,
    pub presformat: Option<NormalPropertyType>,
    pub bytecount: Option<NormalPropertyType>,
    pub linecount: Option<NormalPropertyType>,
    pub paracount: Option<NormalPropertyType>,
    pub slidecount: Option<NormalPropertyType>,
    pub notecount: Option<NormalPropertyType>,
    pub hiddencount: Option<NormalPropertyType>,
    pub mmclipcount: Option<NormalPropertyType>,
    pub scale: Option<NormalPropertyType>,
    pub headingpair: Option<NormalPropertyType>,
    pub docparts: Option<NormalPropertyType>,
    pub manager: Option<NormalPropertyType>,
    pub company: Option<NormalPropertyType>,
    pub linksdirty: Option<NormalPropertyType>,
    pub chars_with_spaces: Option<NormalPropertyType>,
    pub sharedoc: Option<NormalPropertyType>,
    pub linkbase: Option<NormalPropertyType>,
    pub hlinks: Option<NormalPropertyType>,
    pub hlinkschanged: Option<NormalPropertyType>,
    pub version: Option<NormalPropertyType>,
    pub digsig: Option<NormalPropertyType>,
    pub content_type: Option<NormalPropertyType>,
    pub content_status: Option<NormalPropertyType>,
    pub language: Option<NormalPropertyType>,
    pub doc_version: Option<NormalPropertyType>,
    pub custom_property_dict: Vec<(String, NormalPropertyType)>,
}

/// What an optional value holds.
pub open spec fn optional_view(value: Option<NormalPropertyType>) -> Option<PropertyValue> {
    match value {
        Some(v) => Some(v@),
        None => None,
    }
}

/// The names and what the values hold, in order.
pub open spec fn custom_view(items: Seq<(String, NormalPropertyType)>) -> Seq<
    (Seq<char>, PropertyValue),
> {
    Seq::new(items.len(), |i: int| (items[i].0@, items[i].1@))
}

/// The value of directory entry `i` of a section with directory `dir` and
/// properties `props`: the entry's own property, which stands among the
/// properties at the entry's place, where the entry is a normal property and
/// that property is a value. An entry of another kind has no value.
pub open spec fn value_of(
    dir: Seq<PropertyIdentifierAndOffset>,
    props: Seq<PropertyModel>,
    i: int,
) -> Option<PropertyValue> {
    let k = place_of(dir, i as nat) as int;
    if dir[i].propertyIdentifier is Normal && k < props.len() && props[k] is Value {
        Some(props[k]->Value_0)
    } else {
        None
    }
}

/// Whether directory entry `i` gives a value to the field with identifier
/// `id`: it is the normal property `id` and has a value.
pub open spec fn assigns(
    dir: Seq<PropertyIdentifierAndOffset>,
    props: Seq<PropertyModel>,
    id: u32,
    i: int,
) -> bool {
    dir[i].propertyIdentifier == PropertyIdentifier::Normal(id) && value_of(dir, props, i) is Some
}

/// The value that the first `upto` directory entries leave in the field with
/// identifier `id`: that of the last entry that gives it one.
pub open spec fn assigned(
    dir: Seq<PropertyIdentifierAndOffset>,
    props: Seq<PropertyModel>,
    id: u32,
    upto: nat,
) -> Option<PropertyValue>
    decreases upto,
{
    if upto == 0 {
        None
    } else if assigns(dir, props, id, upto - 1) {
        value_of(dir, props, upto - 1)
    } else {
        assigned(dir, props, id, (upto - 1) as nat)
    }
}

/// The custom properties that the dictionary entry `name`, `id` names among
/// the first `upto` directory entries: one for each entry that is the normal
/// property `id` and has a value, with that value.
pub open spec fn named_items(
    name: Seq<char>,
    id: u32,
    dir: Seq<PropertyIdentifierAndOffset>,
    props: Seq<PropertyModel>,
    upto: nat,
) -> Seq<(Seq<char>, PropertyValue)>
    decreases upto,
{
    if upto == 0 {
        Seq::empty()
    } else if assigns(dir, props, id, upto - 1) {
        named_items(name, id, dir, props, (upto - 1) as nat).push(
            (name, value_of(dir, props, upto - 1)->Some_0),
        )
    } else {
        named_items(name, id, dir, props, (upto - 1) as nat)
    }
}

/// The custom properties that the first `upto` entries of the dictionary
/// name, in the order of the dictionary.
pub open spec fn custom_items(
    dict: Seq<(Seq<char>, u32)>,
    dir: Seq<PropertyIdentifierAndOffset>,
    props: Seq<PropertyModel>,
    upto: nat,
) -> Seq<(Seq<char>, PropertyValue)>
    decreases upto,
{
    if upto == 0 {
        Seq::empty()
    } else {
        custom_items(dict, dir, props, (upto - 1) as nat) + named_items(
            dict[upto - 1].0,
            dict[upto - 1].1,
            dir,
            props,
            dir.len(),
        )
    }
}

/// The custom properties of a section with directory `dir` and properties
/// `props`. The first property of the section must be its dictionary; each
/// entry of the dictionary, a name and an identifier, then names the values
/// of the directory entries with that identifier.
pub open spec fn custom_of(dir: Seq<PropertyIdentifierAndOffset>, props: Seq<PropertyModel>) -> Result<
    Seq<(Seq<char>, PropertyValue)>,
    DecodeError,
> {
    if props.len() == 0 || !(props[0] is Dictionary) {
        Err(DecodeError::MalformedLayout)
    } else {
        Ok(custom_items(props[0]->Dictionary_0, dir, props, props[0]->Dictionary_0.len()))
    }
}

/// Law: in a section that decodes, the value of a directory entry for a
/// normal property is the value decoded at that entry's own offset, whatever
/// entries without a property stand before it.
pub proof fn lemma_value_of_entry(s: Seq<u8>, start: int, i: int)
    requires
        PropertySet::extent(s, start, start) is Ok,
        0 <= i < le_u32(s, start + 4),
        directory_at(s, start)[i].propertyIdentifier is Normal,
    ensures
        value_at(s, start + directory_at(s, start)[i].propertyOffset) is Ok,
        value_of(directory_at(s, start), section_properties(s, start), i) == Some(
            value_at(s, start + directory_at(s, start)[i].propertyOffset)->Ok_0.0,
        ),
{
    lemma_property_of_entry(s, start, i);
}

/// The place among the properties of the entry after entry `i`.
proof fn lemma_next_place(dir: Seq<PropertyIdentifierAndOffset>, i: nat)
    ensures
        place_of(dir, i + 1) == place_of(dir, i) + if bears_property(dir[i as int]) {
            1nat
        } else {
            0nat
        },
        place_of(dir, i) <= i,
    decreases i,
{
    if i > 0 {
        lemma_next_place(dir, (i - 1) as nat);
    }
}

/// The property of `set` at place `k`, where it is a value.
fn value_at_place(set: &PropertySet, k: usize) -> (r: Option<&NormalPropertyType>)
    ensures
        match r {
            Some(v) => k < set.properties@.len() && properties_view(set.properties@)[k as int]
                == PropertyModel::Value(v@),
            None => !(k < set.properties@.len() && properties_view(set.properties@)[k as int]
                is Value),
        },
{
    if k < set.properties.len() {
        match &set.properties[k] {
            PropertyType::NormalPropertyType(value) => Some(value),
            _ => None,
        }
    } else {
        None
    }
}

/// The value that the section `set` leaves in the field with identifier `id`.
fn assigned_value(set: &PropertySet, id: u32) -> (r: Option<NormalPropertyType>)
    ensures
        optional_view(r) == assigned(
            set.rgProperties@,
            properties_view(set.properties@),
            id,
            set.rgProperties@.len(),
        ),
{
    let ghost dir = set.rgProperties@;
    let ghost props = properties_view(set.properties@);
    let mut last: Option<&NormalPropertyType> = None;
    let mut k: usize = 0;
    let mut i: usize = 0;
    while i < set.rgProperties.len()
        invariant
            i <= dir.len(),
            k == place_of(dir, i as nat),
            k <= i,
            dir == set.rgProperties@,
            props == properties_view(set.properties@),
            match last {
                Some(v) => assigned(dir, props, id, i as nat) == Some(v@),
                None => assigned(dir, props, id, i as nat) is None,
            },
        decreases dir.len() - i,
    {
        proof {
            lemma_next_place(dir, i as nat);
        }
        match set.rgProperties[i].propertyIdentifier {
            PropertyIdentifier::Normal(prop_id) => {
                if prop_id == id {
                    match value_at_place(set, k) {
                        Some(value) => {
                            last = Some(value);
                        },
                        None => {},
                    }
                }
                k = k + 1;
            },
            PropertyIdentifier::DictionaryProperty => {
                k = k + 1;
            },
            _ => {},
        }
        i = i + 1;
    }
    match last {
        Some(value) => Some(clone_value(value)),
        None => None,
    }
}

/// The custom properties of the section `set`.
fn custom_properties(set: &PropertySet) -> (r: Result<Vec<(String, NormalPropertyType)>, DecodeError>)
    ensures
        match custom_of(set.rgProperties@, properties_view(set.properties@)) {
            Ok(items) => r matches Ok(v) && custom_view(v@) == items,
            Err(e) => r == Err::<Vec<(String, NormalPropertyType)>, DecodeError>(e),
        },
{
    let ghost dir = set.rgProperties@;
    let ghost props = properties_view(set.properties@);
    if set.properties.len() == 0 {
        return Err(DecodeError::MalformedLayout);
    }
    let dictionary: &DictionaryPropertyType = match &set.properties[0] {
        PropertyType::DictionaryPropertyType(dictionary) => dictionary,
        _ => {
            return Err(DecodeError::MalformedLayout);
        },
    };
    let ghost dict = dictionary@;
    assert(props[0] == PropertyModel::Dictionary(dict));
    let mut items: Vec<(String, NormalPropertyType)> = Vec::new();
    let mut d: usize = 0;
    while d < dictionary.dictionary.len()
        invariant
            d <= dict.len(),
            dict == dictionary@,
            dir == set.rgProperties@,
            props == properties_view(set.properties@),
            custom_view(items@) == custom_items(dict, dir, props, d as nat),
        decreases dict.len() - d,
    {
        let id: u32 = dictionary.dictionary[d].1;
        let ghost name = dictionary.dictionary@[d as int].0@;
        assert(dict[d as int] == (name, id));
        let ghost done = custom_view(items@);
        let mut k: usize = 0;
        let mut j: usize = 0;
        while j < set.rgProperties.len()
            invariant
                j <= dir.len(),
                d < dictionary.dictionary@.len(),
                name == dictionary.dictionary@[d as int].0@,
                k == place_of(dir, j as nat),
                k <= j,
                dir == set.rgProperties@,
                props == properties_view(set.properties@),
                custom_view(items@) == done + named_items(name, id, dir, props, j as nat),
            decreases dir.len() - j,
        {
            let ghost before = custom_view(items@);
            proof {
                lemma_next_place(dir, j as nat);
            }
            match set.rgProperties[j].propertyIdentifier {
                PropertyIdentifier::Normal(prop_id) => {
                    if prop_id == id {
                        match value_at_place(set, k) {
                            Some(value) => {
                                let ghost item = (name, value@);
                                items.push((dictionary.dictionary[d].0.clone(), clone_value(value)));
                                assert(custom_view(items@) =~= before + seq![item]);
                                assert(done + named_items(name, id, dir, props, j as nat).push(item)
                                    =~= before + seq![item]);
                            },
                            None => {},
                        }
                    }
                    k = k + 1;
                },
                PropertyIdentifier::DictionaryProperty => {
                    k = k + 1;
                },
                _ => {},
            }
            j = j + 1;
        }
        d = d + 1;
    }
    Ok(items)
}

impl SummaryInformation {
    /// Whether the fields are what the section with directory `dir` and
    /// properties `props` leaves in them: each field has the value of the
    /// directory entry that is the normal property with the field's
    /// identifier, the last such entry where there are several, and is absent
    /// where there is none.
    pub open spec fn extracted_from(
        &self,
        dir: Seq<PropertyIdentifierAndOffset>,
        props: Seq<PropertyModel>,
    ) -> bool {
        &&& optional_view(self.title) == assigned(dir, props, 0x0002, dir.len())
        &&& optional_view(self.subject) == assigned(dir, props, 0x0003, dir.len())
        &&& optional_view(self.author) == assigned(dir, props, 0x0004, dir.len())
        &&& optional_view(self.keywords) == assigned(dir, props, 0x0005, dir.len())
        &&& optional_view(self.comments) == assigned(dir, props, 0x0006, dir.len())
        &&& optional_view(self.template) == assigned(dir, props, 0x0007, dir.len())
        &&& optional_view(self.lastAuthor) == assigned(dir, props, 0x0008, dir.len())
        &&& optional_view(self.revisionNumber) == assigned(dir, props, 0x0009, dir.len())
        &&& optional_view(self.applicationName) == assigned(dir, props, 0x0012, dir.len())
        &&& optional_view(self.editTime) == assigned(dir, props, 0x000A, dir.len())
        &&& optional_view(self.lastPrinted) == assigned(dir, props, 0x000B, dir.len())
        &&& optional_view(self.create_dtm) == assigned(dir, props, 0x000C, dir.len())
        &&& optional_view(self.lastSave_dtm) == assigned(dir, props, 0x000D, dir.len())
        &&& optional_view(self.pageCount) == assigned(dir, props, 0x000E, dir.len())
        &&& optional_view(self.wordCount) == assigned(dir, props, 0x000F, dir.len())
        &&& optional_view(self.charCount) == assigned(dir, props, 0x0010, dir.len())
        &&& optional_view(self.doc_security) == assigned(dir, props, 0x0013, dir.len())
    }

    /// Whether a stream with sections `sets` has a summary: it has a first
    /// section.
    pub open spec fn well_formed(sets: Seq<PropertySet>) -> bool {
        sets.len() >= 1
    }

    /// Whether `self` is the summary of a stream with sections `sets`.
    pub open spec fn summarizes(&self, sets: Seq<PropertySet>) -> bool {
        self.extracted_from(sets[0].rgProperties@, properties_view(sets[0].properties@))
    }

    /// Whether the stream whose header is at `at` has a summary.
    pub open spec fn stream_well_formed(s: Seq<u8>, base: int, at: int) -> bool {
        le_u32(s, at + 24) >= 1
    }

    /// Whether `self` is the summary of the stream whose header is at `at`.
    pub open spec fn summarizes_stream(&self, s: Seq<u8>, base: int, at: int) -> bool {
        self.extracted_from(
            directory_at(s, section_start(s, base, at, 0)),
            section_properties(s, section_start(s, base, at, 0)),
        )
    }

    /// The summary of a stream with sections `sets`.
    pub fn from_property_sets(sets: &Vec<PropertySet>) -> (r: Result<Self, DecodeError>)
        ensures
            match r {
                Ok(summary) => Self::well_formed(sets@) && summary.summarizes(sets@),
                Err(e) => e == DecodeError::MalformedLayout && !Self::well_formed(sets@),
            },
    {
        if sets.len() == 0 {
            return Err(DecodeError::MalformedLayout);
        }
        let set: &PropertySet = &sets[0];
        Ok(
            SummaryInformation {
                title: assigned_value(set, 0x0002),
                subject: assigned_value(set, 0x0003),
                author: assigned_value(set, 0x0004),
                keywords: assigned_value(set, 0x0005),
                comments: assigned_value(set, 0x0006),
                template: assigned_value(set, 0x0007),
                lastAuthor: assigned_value(set, 0x0008),
                revisionNumber: assigned_value(set, 0x0009),
                applicationName: assigned_value(set, 0x0012),
                editTime: assigned_value(set, 0x000A),
                lastPrinted: assigned_value(set, 0x000B),
                create_dtm: assigned_value(set, 0x000C),
                lastSave_dtm: assigned_value(set, 0x000D),
                pageCount: assigned_value(set, 0x000E),
                wordCount: assigned_value(set, 0x000F),
                charCount: assigned_value(set, 0x0010),
                doc_security: assigned_value(set, 0x0013),
            },
        )
    }
}

impl FromReader for SummaryInformation {
    /// The summary decodes where the stream does and has a summary.
    open spec fn extent(s: Seq<u8>, base: int, at: int) -> Result<int, DecodeError> {
        match PropertySetStream::extent(s, base, at) {
            Err(e) => Err(e),
            Ok(end) => if Self::stream_well_formed(s, base, at) {
                Ok(end)
            } else {
                Err(DecodeError::MalformedLayout)
            },
        }
    }

    /// `self` is the summary of the sections of the stream.
    open spec fn decoded(&self, s: Seq<u8>, base: int, at: int) -> bool {
        self.summarizes_stream(s, base, at)
    }

    fn from_reader(reader: &mut SubReader<'_>) -> (r: Result<Self, DecodeError>) {
        let ghost s = reader.stream();
        let ghost base = reader.base() as int;
        let ghost at = reader.pos() as int;
        let property_set_stream: PropertySetStream = PropertySetStream::from_reader(reader)?;
        proof {
            let sets = property_set_stream.propertySets@;
            assert(sets.len() == le_u32(s, at + 24));
            if sets.len() >= 1 {
                assert(section_matches(sets, s, base, at, 0));
            }
            if sets.len() >= 2 {
                assert(section_matches(sets, s, base, at, 1));
            }
        }
        Self::from_property_sets(&property_set_stream.propertySets)
    }
}

impl DocumentSummaryInfoStream {
    /// Whether the fields are what the section with directory `dir` and
    /// properties `props` leaves in them: each field has the value of the
    /// directory entry that is the normal property with the field's
    /// identifier, the last such entry where there are several, and is absent
    /// where there is none.
    pub open spec fn extracted_from(
        &self,
        dir: Seq<PropertyIdentifierAndOffset>,
        props: Seq<PropertyModel>,
    ) -> bool {
        &&& optional_view(self.codepage) == assigned(dir, props, 0x0001, dir.len())
        &&& optional_view(self.category) == assigned(dir, props, 0x0002, dir.len())
        &&& optional_view(self.presformat) == assigned(dir, props, 0x0003, dir.len())
        &&& optional_view(self.bytecount) == assigned(dir, props, 0x0004, dir.len())
        &&& optional_view(self.linecount) == assigned(dir, props, 0x0005, dir.len())
        &&& optional_view(self.paracount) == assigned(dir, props, 0x0006, dir.len())
        &&& optional_view(self.slidecount) == assigned(dir, props, 0x0007, dir.len())
        &&& optional_view(self.notecount) == assigned(dir, props, 0x0008, dir.len())
        &&& optional_view(self.hiddencount) == assigned(dir, props, 0x0009, dir.len())
        &&& optional_view(self.mmclipcount) == assigned(dir, props, 0x000A, dir.len())
        &&& optional_view(self.scale) == assigned(dir, props, 0x000B, dir.len())
        &&& optional_view(self.headingpair) == assigned(dir, props, 0x000C, dir.len())
        &&& optional_view(self.docparts) == assigned(dir, props, 0x000D, dir.len())
        &&& optional_view(self.manager) == assigned(dir, props, 0x000E, dir.len())
        &&& optional_view(self.company) == assigned(dir, props, 0x000F, dir.len())
        &&& optional_view(self.linksdirty) == assigned(dir, props, 0x0010, dir.len())
        &&& optional_view(self.chars_with_spaces) == assigned(dir, props, 0x0011, dir.len())
        &&& optional_view(self.sharedoc) == assigned(dir, props, 0x0013, dir.len())
        &&& optional_view(self.linkbase) == assigned(dir, props, 0x0014, dir.len())
        &&& optional_view(self.hlinks) == assigned(dir, props, 0x0015, dir.len())
        &&& optional_view(self.hlinkschanged) == assigned(dir, props, 0x0016, dir.len())
        &&& optional_view(self.version) == assigned(dir, props, 0x0017, dir.len())
        &&& optional_view(self.digsig) == assigned(dir, props, 0x0018, dir.len())
        &&& optional_view(self.content_type) == assigned(dir, props, 0x001A, dir.len())
        &&& optional_view(self.content_status) == assigned(dir, props, 0x001B, dir.len())
        &&& optional_view(self.language) == assigned(dir, props, 0x001C, dir.len())
        &&& optional_view(self.doc_version) == assigned(dir, props, 0x001D, dir.len())
    }

    /// Whether a stream with sections `sets` has a summary: it has a first
    /// section, and where it has a second section, the first property of
    /// that section is its dictionary.
    pub open spec fn well_formed(sets: Seq<PropertySet>) -> bool {
        &&& sets.len() >= 1
        &&& sets.len() >= 2 ==> custom_of(
            sets[1].rgProperties@,
            properties_view(sets[1].properties@),
        ) is Ok
    }

    /// Whether `self` is the summary of a stream with sections `sets`: the
    /// fields come from the first section, the custom properties from the
    /// second, and there are none where there is no second section.
    pub open spec fn summarizes(&self, sets: Seq<PropertySet>) -> bool {
        &&& self.extracted_from(sets[0].rgProperties@, properties_view(sets[0].properties@))
        &&& custom_view(self.custom_property_dict@) == if sets.len() >= 2 {
            custom_of(sets[1].rgProperties@, properties_view(sets[1].properties@))->Ok_0
        } else {
            Seq::empty()
        }
    }

    /// Whether the stream whose header is at `at` has a summary.
    pub open spec fn stream_well_formed(s: Seq<u8>, base: int, at: int) -> bool {
        &&& le_u32(s, at + 24) >= 1
        &&& le_u32(s, at + 24) >= 2 ==> custom_of(
            directory_at(s, section_start(s, base, at, 1)),
            section_properties(s, section_start(s, base, at, 1)),
        ) is Ok
    }

    /// Whether `self` is the summary of the stream whose header is at `at`.
    pub open spec fn summarizes_stream(&self, s: Seq<u8>, base: int, at: int) -> bool {
        &&& self.extracted_from(
            directory_at(s, section_start(s, base, at, 0)),
            section_properties(s, section_start(s, base, at, 0)),
        )
        &&& custom_view(self.custom_property_dict@) == if le_u32(s, at + 24) >= 2 {
            custom_of(
                directory_at(s, section_start(s, base, at, 1)),
                section_properties(s, section_start(s, base, at, 1)),
            )->Ok_0
        } else {
            Seq::empty()
        }
    }

    /// The extended summary of a stream with sections `sets`, with its custom
    /// properties.
    pub fn from_property_sets(sets: &Vec<PropertySet>) -> (r: Result<Self, DecodeError>)
        ensures
            match r {
                Ok(summary) => Self::well_formed(sets@) && summary.summarizes(sets@),
                Err(e) => e == DecodeError::MalformedLayout && !Self::well_formed(sets@),
            },
    {
        if sets.len() == 0 {
            return Err(DecodeError::MalformedLayout);
        }
        let set: &PropertySet = &sets[0];
        let custom_property_dict: Vec<(String, NormalPropertyType)> = if sets.len() >= 2 {
            match custom_properties(&sets[1]) {
                Ok(items) => items,
                Err(e) => {
                    return Err(DecodeError::MalformedLayout);
                },
            }
        } else {
            Vec::new()
        };
        assert(sets@.len() < 2 ==> custom_view(custom_property_dict@) =~= Seq::empty());
        Ok(
            DocumentSummaryInfoStream {
                codepage: assigned_value(set, 0x0001),
                category: assigned_value(set, 0x0002),
                presformat: assigned_value(set, 0x0003),
                bytecount: assigned_value(set, 0x0004),
                linecount: assigned_value(set, 0x0005),
                paracount: assigned_value(set, 0x0006),
                slidecount: assigned_value(set, 0x0007),
                notecount: assigned_value(set, 0x0008),
                hiddencount: assigned_value(set, 0x0009),
                mmclipcount: assigned_value(set, 0x000A),
                scale: assigned_value(set, 0x000B),
                headingpair: assigned_value(set, 0x000C),
                docparts: assigned_value(set, 0x000D),
                manager: assigned_value(set, 0x000E),
                company: assigned_value(set, 0x000F),
                linksdirty: assigned_value(set, 0x0010),
                chars_with_spaces: assigned_value(set, 0x0011),
                sharedoc: assigned_value(set, 0x0013),
                linkbase: assigned_value(set, 0x0014),
                hlinks: assigned_value(set, 0x0015),
                hlinkschanged: assigned_value(set, 0x0016),
                version: assigned_value(set, 0x0017),
                digsig: assigned_value(set, 0x0018),
                content_type: assigned_value(set, 0x001A),
                content_status: assigned_value(set, 0x001B),
                language: assigned_value(set, 0x001C),
                doc_version: assigned_value(set, 0x001D),
                custom_property_dict,
            },
        )
    }
}

impl FromReader for DocumentSummaryInfoStream {
    /// The summary decodes where the stream does and has a summary.
    open spec fn extent(s: Seq<u8>, base: int, at: int) -> Result<int, DecodeError> {
        match PropertySetStream::extent(s, base, at) {
            Err(e) => Err(e),
            Ok(end) => if Self::stream_well_formed(s, base, at) {
                Ok(end)
            } else {
                Err(DecodeError::MalformedLayout)
            },
        }
    }

    /// `self` is the summary of the sections of the stream.
    open spec fn decoded(&self, s: Seq<u8>, base: int, at: int) -> bool {
        self.summarizes_stream(s, base, at)
    }

    fn from_reader(reader: &mut SubReader<'_>) -> (r: Result<Self, DecodeError>) {
        let ghost s = reader.stream();
        let ghost base = reader.base() as int;
        let ghost at = reader.pos() as int;
        let property_set_stream: PropertySetStream = PropertySetStream::from_reader(reader)?;
        proof {
            let sets = property_set_stream.propertySets@;
            assert(sets.len() == le_u32(s, at + 24));
            if sets.len() >= 1 {
                assert(section_matches(sets, s, base, at, 0));
            }
            if sets.len() >= 2 {
                assert(section_matches(sets, s, base, at, 1));
            }
        }
        Self::from_property_sets(&property_set_stream.propertySets)
    }
}

} // verus!
