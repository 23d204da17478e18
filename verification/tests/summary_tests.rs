use doc_anal::{
    DecodeError, DictionaryPropertyType, DocumentSummaryInfoStream, FromReader, NormalPropertyType,
    PropertyIdentifier, PropertyIdentifierAndOffset, PropertySet, PropertySetStream, PropertyType,
    SubReader, SummaryInformation,
};

fn tagged(tag: u16, payload: &[u8]) -> Vec<u8> {
    let mut b = tag.to_le_bytes().to_vec();
    b.extend_from_slice(payload);
    b
}

fn narrow(text: &[u8]) -> Vec<u8> {
    let mut p = (text.len() as u32).to_le_bytes().to_vec();
    p.extend_from_slice(text);
    tagged(0x001E, &p)
}

fn long(v: i32) -> Vec<u8> {
    tagged(0x0003, &v.to_le_bytes())
}

fn time(v: u64) -> Vec<u8> {
    tagged(0x0040, &v.to_le_bytes())
}

fn dictionary_bytes(entries: &[(u32, &[u8])]) -> Vec<u8> {
    let mut b = (entries.len() as u32).to_le_bytes().to_vec();
    for (id, name) in entries {
        b.extend_from_slice(&id.to_le_bytes());
        b.extend_from_slice(&(name.len() as u32).to_le_bytes());
        b.extend_from_slice(name);
    }
    b
}

fn section(entries: &[(u32, Vec<u8>)]) -> Vec<u8> {
    let mut directory = Vec::new();
    let mut body = Vec::new();
    let first = 8 + 8 * entries.len();
    for (id, bytes) in entries {
        directory.extend_from_slice(&id.to_le_bytes());
        directory.extend_from_slice(&((first + body.len()) as u32).to_le_bytes());
        body.extend_from_slice(bytes);
    }
    let mut b = ((first + body.len()) as u32).to_le_bytes().to_vec();
    b.extend_from_slice(&(entries.len() as u32).to_le_bytes());
    b.extend_from_slice(&directory);
    b.extend_from_slice(&body);
    b
}

fn stream(sections: &[Vec<u8>]) -> Vec<u8> {
    let mut b = vec![0xFE, 0xFF, 0x00, 0x00, 0x06, 0x00, 0x02, 0x00];
    b.extend_from_slice(&[0; 16]);
    b.extend_from_slice(&(sections.len() as u32).to_le_bytes());
    let mut offset = 28 + 20 * sections.len();
    for s in sections {
        b.extend_from_slice(&[0xE0; 16]);
        b.extend_from_slice(&(offset as u32).to_le_bytes());
        offset += s.len();
    }
    for s in sections {
        b.extend_from_slice(s);
    }
    b
}

fn lpstr(text: &str) -> NormalPropertyType {
    NormalPropertyType::VT_LPSTR(text.to_string())
}

fn entry(id: u32, offset: u32) -> PropertyIdentifierAndOffset {
    PropertyIdentifierAndOffset { propertyIdentifier: PropertyIdentifier::from_u32(id), propertyOffset: offset }
}

fn value(v: NormalPropertyType) -> PropertyType {
    PropertyType::NormalPropertyType(v)
}

fn set(directory: Vec<PropertyIdentifierAndOffset>, properties: Vec<PropertyType>) -> PropertySet {
    PropertySet { cb: 0, cProperties: directory.len() as u32, rgProperties: directory, properties }
}

fn summary_stream() -> Vec<u8> {
    stream(&[section(&[
        (0x01, tagged(0x0002, &[0xE4, 0x04])),
        (0x02, narrow(b"Joe's document\0")),
        (0x03, narrow(b"Job\0")),
        (0x04, narrow(b"Joe\0")),
        (0x07, narrow(b"Normal.dotm\0")),
        (0x08, narrow(b"Cornelius\0")),
        (0x09, narrow(b"66\0\0")),
        (0x12, narrow(b"Microsoft Office Word\0\0\0")),
        (0x0A, time(286200000000)),
        (0x0C, time(128016322800000000)),
        (0x0D, time(128494278000000000)),
        (0x0E, long(14)),
        (0x0F, long(3557)),
        (0x10, long(20280)),
        (0x13, long(0)),
    ])])
}

#[test]
fn summary_stream_header_and_directory() {
    let bytes = summary_stream();
    let mut reader = SubReader::new(&bytes, 0);
    let stream = PropertySetStream::from_reader(&mut reader).unwrap();
    let start = &stream.propertySetStreamVals;
    assert_eq!(start.byteOrder, 0xFFFE);
    assert_eq!(start.version, 0);
    assert_eq!(start.OSMajorVersion, 0);
    assert_eq!(start.OSMinorVersion, 0);
    assert_eq!(start.OSType, 2);
    assert_eq!(start.applicationClsid, [0; 16]);
    assert_eq!(start.num_property_sets, 1);
    assert_eq!(start.rgIdOffset.len(), 1);
    assert_eq!(start.rgIdOffset[0].sectionOffset, 0x30);
    assert_eq!(start.rgIdOffset[0].formatID[0], 0xE0);
    assert_eq!(reader.stream_position(), 48);

    assert_eq!(stream.propertySets.len(), 1);
    let set = &stream.propertySets[0];
    assert_eq!(set.cProperties, 15);
    assert_eq!(set.rgProperties.len(), 15);
    assert_eq!(set.rgProperties[0], entry(1, 8 + 8 * 15));
    assert_eq!(set.rgProperties[0].propertyIdentifier, PropertyIdentifier::CodePageProperty);
    assert_eq!(set.rgProperties[1], entry(2, 8 + 8 * 15 + 4));
    assert_eq!(set.rgProperties[7].propertyIdentifier, PropertyIdentifier::Normal(0x12));
}

#[test]
fn summary_stream_has_a_property_for_each_normal_entry() {
    let bytes = summary_stream();
    let stream = PropertySetStream::from_reader(&mut SubReader::new(&bytes, 0)).unwrap();
    let properties = &stream.propertySets[0].properties;
    assert_eq!(properties.len(), 14);
    assert_eq!(properties[0], value(lpstr("Joe's document\0")));
    assert_eq!(properties[1], value(lpstr("Job\0")));
    assert_eq!(properties[6], value(lpstr("Microsoft Office Word\0\0\0")));
    assert_eq!(properties[7], value(NormalPropertyType::VT_FILETIME(286200000000)));
    assert_eq!(properties[10], value(NormalPropertyType::VT_I4(14)));
    assert_eq!(properties[13], value(NormalPropertyType::VT_I4(0)));
}

#[test]
fn summary_fields_hold_the_value_at_the_offset_of_their_identifier() {
    let bytes = summary_stream();
    let from_stream = SummaryInformation::from_reader(&mut SubReader::new(&bytes, 0)).unwrap();
    let stream = PropertySetStream::from_reader(&mut SubReader::new(&bytes, 0)).unwrap();
    let from_sets = SummaryInformation::from_property_sets(&stream.propertySets).unwrap();
    assert_eq!(from_stream, from_sets);
    assert_eq!(from_stream.title, Some(lpstr("Joe's document\0")));
    assert_eq!(from_stream.subject, Some(lpstr("Job\0")));
    assert_eq!(from_stream.author, Some(lpstr("Joe\0")));
    assert_eq!(from_stream.keywords, None);
    assert_eq!(from_stream.comments, None);
    assert_eq!(from_stream.template, Some(lpstr("Normal.dotm\0")));
    assert_eq!(from_stream.lastAuthor, Some(lpstr("Cornelius\0")));
    assert_eq!(from_stream.revisionNumber, Some(lpstr("66\0\0")));
    assert_eq!(from_stream.applicationName, Some(lpstr("Microsoft Office Word\0\0\0")));
    assert_eq!(from_stream.editTime, Some(NormalPropertyType::VT_FILETIME(286200000000)));
    assert_eq!(from_stream.lastPrinted, None);
    assert_eq!(from_stream.create_dtm, Some(NormalPropertyType::VT_FILETIME(128016322800000000)));
    assert_eq!(from_stream.lastSave_dtm, Some(NormalPropertyType::VT_FILETIME(128494278000000000)));
    assert_eq!(from_stream.pageCount, Some(NormalPropertyType::VT_I4(14)));
    assert_eq!(from_stream.wordCount, Some(NormalPropertyType::VT_I4(3557)));
    assert_eq!(from_stream.charCount, Some(NormalPropertyType::VT_I4(20280)));
    assert_eq!(from_stream.doc_security, Some(NormalPropertyType::VT_I4(0)));
}

#[test]
fn entries_without_a_property_move_no_value() {
    let sets = vec![set(
        vec![entry(1, 0), entry(2, 0), entry(3, 0)],
        vec![value(lpstr("title")), value(lpstr("subject"))],
    )];
    let summary = SummaryInformation::from_property_sets(&sets).unwrap();
    assert_eq!(summary.title, Some(lpstr("title")));
    assert_eq!(summary.subject, Some(lpstr("subject")));
    assert_eq!(summary.author, None);

    let sets = vec![set(
        vec![entry(0x8000_0000, 0), entry(4, 0), entry(1, 0), entry(0x8000_0003, 0), entry(2, 0), entry(0x13, 0)],
        vec![value(lpstr("author")), value(lpstr("title")), value(NormalPropertyType::VT_I4(1))],
    )];
    let summary = SummaryInformation::from_property_sets(&sets).unwrap();
    assert_eq!(summary.author, Some(lpstr("author")));
    assert_eq!(summary.title, Some(lpstr("title")));
    assert_eq!(summary.doc_security, Some(NormalPropertyType::VT_I4(1)));
    assert_eq!(summary.subject, None);

    let bytes = stream(&[section(&[
        (0x8000_0000, long(9)),
        (0x03, narrow(b"subject")),
        (0x01, tagged(0x0002, &[1, 0])),
        (0x02, narrow(b"title")),
    ])]);
    let summary = SummaryInformation::from_reader(&mut SubReader::new(&bytes, 0)).unwrap();
    assert_eq!(summary.title, Some(lpstr("title")));
    assert_eq!(summary.subject, Some(lpstr("subject")));
}

#[test]
fn summary_field_takes_the_value_of_the_last_entry_with_its_identifier() {
    let sets = vec![set(
        vec![entry(2, 0), entry(4, 0), entry(0x13, 0), entry(2, 0), entry(0x7FFF_FFFF, 0)],
        vec![
            value(lpstr("first title")),
            value(lpstr("author")),
            value(NormalPropertyType::VT_I4(1)),
            value(lpstr("last title")),
            value(NormalPropertyType::VT_EMPTY),
        ],
    )];
    let summary = SummaryInformation::from_property_sets(&sets).unwrap();
    assert_eq!(summary.title, Some(lpstr("last title")));
    assert_eq!(summary.author, Some(lpstr("author")));
    assert_eq!(summary.doc_security, Some(NormalPropertyType::VT_I4(1)));
    assert_eq!(summary.subject, None);
    assert_eq!(summary.keywords, None);
    assert_eq!(summary.charCount, None);
}

#[test]
fn summary_entry_without_a_value_sets_no_field() {
    let sets = vec![set(vec![entry(2, 0), entry(3, 0), entry(4, 0)], vec![value(lpstr("t"))])];
    let summary = SummaryInformation::from_property_sets(&sets).unwrap();
    assert_eq!(summary.title, Some(lpstr("t")));
    assert_eq!(summary.subject, None);
    assert_eq!(summary.author, None);
    let sets = vec![set(
        vec![entry(0, 0), entry(2, 0)],
        vec![PropertyType::DictionaryPropertyType(DictionaryPropertyType { dictionary: vec![] }), value(lpstr("t"))],
    )];
    let summary = SummaryInformation::from_property_sets(&sets).unwrap();
    assert_eq!(summary.title, Some(lpstr("t")));
    let only_code_page = vec![set(vec![entry(1, 0)], vec![])];
    assert_eq!(SummaryInformation::from_property_sets(&only_code_page).unwrap().title, None);
}

#[test]
fn summary_without_a_section_is_malformed() {
    assert_eq!(SummaryInformation::from_property_sets(&vec![]).err(), Some(DecodeError::MalformedLayout));
    assert_eq!(DocumentSummaryInfoStream::from_property_sets(&vec![]).err(), Some(DecodeError::MalformedLayout));
    let no_sections = stream(&[]);
    assert_eq!(
        SummaryInformation::from_reader(&mut SubReader::new(&no_sections, 0)).err(),
        Some(DecodeError::MalformedLayout)
    );
    assert_eq!(
        DocumentSummaryInfoStream::from_reader(&mut SubReader::new(&no_sections, 0)).err(),
        Some(DecodeError::MalformedLayout)
    );
    let cut = summary_stream();
    assert_eq!(
        SummaryInformation::from_reader(&mut SubReader::new(&cut[..cut.len() - 1], 0)).err(),
        Some(DecodeError::UnexpectedEof)
    );
}

#[test]
fn document_summary_fields_and_no_custom_properties() {
    let sets = vec![set(
        vec![entry(1, 0), entry(2, 0), entry(0x0F, 0), entry(0x1D, 0), entry(0x17, 0)],
        vec![
            value(lpstr("category")),
            value(lpstr("company")),
            value(NormalPropertyType::VT_UI4(12)),
            value(NormalPropertyType::VT_I4(0x000C_0000)),
        ],
    )];
    let summary = DocumentSummaryInfoStream::from_property_sets(&sets).unwrap();
    assert_eq!(summary.category, Some(lpstr("category")));
    assert_eq!(summary.company, Some(lpstr("company")));
    assert_eq!(summary.doc_version, Some(NormalPropertyType::VT_UI4(12)));
    assert_eq!(summary.version, Some(NormalPropertyType::VT_I4(0x000C_0000)));
    assert_eq!(summary.codepage, None);
    assert_eq!(summary.manager, None);
    assert!(summary.custom_property_dict.is_empty());
}

fn dictionary(entries: &[(&str, u32)]) -> PropertyType {
    PropertyType::DictionaryPropertyType(DictionaryPropertyType {
        dictionary: entries.iter().map(|(n, i)| (n.to_string(), *i)).collect(),
    })
}

#[test]
fn custom_properties_are_named_by_the_dictionary() {
    let first = set(vec![], vec![]);
    let second = set(
        vec![entry(0, 0), entry(1, 0), entry(2, 0), entry(3, 0), entry(4, 0)],
        vec![
            dictionary(&[("Reviewed", 3), ("Project", 2), ("Absent", 9)]),
            value(lpstr("Apollo")),
            value(NormalPropertyType::VT_BOOL(true)),
            value(NormalPropertyType::VT_I4(7)),
        ],
    );
    let summary = DocumentSummaryInfoStream::from_property_sets(&vec![first, second]).unwrap();
    assert_eq!(
        summary.custom_property_dict,
        vec![
            ("Reviewed".to_string(), NormalPropertyType::VT_BOOL(true)),
            ("Project".to_string(), lpstr("Apollo")),
        ]
    );
}

#[test]
fn custom_property_is_the_value_of_its_own_entry() {
    let first = || set(vec![], vec![]);
    let no_code_page = set(
        vec![entry(0, 0), entry(2, 0)],
        vec![dictionary(&[("Name", 2)]), value(lpstr("value"))],
    );
    let summary = DocumentSummaryInfoStream::from_property_sets(&vec![first(), no_code_page]).unwrap();
    assert_eq!(summary.custom_property_dict, vec![("Name".to_string(), lpstr("value"))]);

    let with_locale = set(
        vec![entry(0, 0), entry(1, 0), entry(0x8000_0000, 0), entry(2, 0), entry(3, 0)],
        vec![dictionary(&[("A", 2), ("B", 3)]), value(lpstr("a")), value(lpstr("b"))],
    );
    let summary = DocumentSummaryInfoStream::from_property_sets(&vec![first(), with_locale]).unwrap();
    assert_eq!(
        summary.custom_property_dict,
        vec![("A".to_string(), lpstr("a")), ("B".to_string(), lpstr("b"))]
    );

    let bytes = stream(&[
        section(&[(0x02, narrow(b"category"))]),
        section(&[
            (0x00, dictionary_bytes(&[(3, b"Reviewed"), (2, b"Project")])),
            (0x02, narrow(b"Apollo")),
            (0x01, tagged(0x0002, &[0xE4, 0x04])),
            (0x03, tagged(0x000B, &[0xFF, 0xFF])),
        ]),
    ]);
    let summary = DocumentSummaryInfoStream::from_reader(&mut SubReader::new(&bytes, 0)).unwrap();
    assert_eq!(summary.category, Some(lpstr("category")));
    assert_eq!(
        summary.custom_property_dict,
        vec![
            ("Reviewed".to_string(), NormalPropertyType::VT_BOOL(true)),
            ("Project".to_string(), lpstr("Apollo")),
        ]
    );
}

#[test]
fn custom_property_named_twice_is_listed_twice() {
    let second = set(
        vec![entry(0, 0), entry(1, 0), entry(2, 0), entry(2, 0)],
        vec![dictionary(&[("A", 2), ("B", 2)]), value(NormalPropertyType::VT_I4(1)), value(NormalPropertyType::VT_I4(2))],
    );
    let summary = DocumentSummaryInfoStream::from_property_sets(&vec![set(vec![], vec![]), second]).unwrap();
    let names: Vec<&str> = summary.custom_property_dict.iter().map(|(n, _)| n.as_str()).collect();
    assert_eq!(names, vec!["A", "A", "B", "B"]);
    assert_eq!(summary.custom_property_dict[1].1, NormalPropertyType::VT_I4(2));
    assert_eq!(summary.custom_property_dict[2].1, NormalPropertyType::VT_I4(1));
}

#[test]
fn custom_properties_need_the_dictionary_as_first_property() {
    let first = || set(vec![], vec![]);
    let no_properties = set(vec![entry(1, 0)], vec![]);
    assert_eq!(
        DocumentSummaryInfoStream::from_property_sets(&vec![first(), no_properties]).err(),
        Some(DecodeError::MalformedLayout)
    );
    let no_dictionary = set(vec![entry(2, 0)], vec![value(lpstr("x"))]);
    assert_eq!(
        DocumentSummaryInfoStream::from_property_sets(&vec![first(), no_dictionary]).err(),
        Some(DecodeError::MalformedLayout)
    );
    let value_first = set(
        vec![entry(2, 0), entry(0, 0)],
        vec![value(lpstr("x")), dictionary(&[("A", 2)])],
    );
    assert_eq!(
        DocumentSummaryInfoStream::from_property_sets(&vec![first(), value_first]).err(),
        Some(DecodeError::MalformedLayout)
    );
    let bytes = stream(&[section(&[]), section(&[(0x02, narrow(b"x"))])]);
    assert_eq!(
        DocumentSummaryInfoStream::from_reader(&mut SubReader::new(&bytes, 0)).err(),
        Some(DecodeError::MalformedLayout)
    );
    let names_nothing = set(vec![entry(0, 0), entry(1, 0), entry(5, 0)], vec![dictionary(&[("A", 2)]), value(lpstr("x"))]);
    let summary = DocumentSummaryInfoStream::from_property_sets(&vec![first(), names_nothing]).unwrap();
    assert!(summary.custom_property_dict.is_empty());
    let value_missing = set(vec![entry(0, 0), entry(2, 0)], vec![dictionary(&[("A", 2)])]);
    let summary = DocumentSummaryInfoStream::from_property_sets(&vec![first(), value_missing]).unwrap();
    assert!(summary.custom_property_dict.is_empty());
}

#[test]
fn property_identifiers_by_number() {
    assert_eq!(PropertyIdentifier::from_u32(0), PropertyIdentifier::DictionaryProperty);
    assert_eq!(PropertyIdentifier::from_u32(1), PropertyIdentifier::CodePageProperty);
    assert_eq!(PropertyIdentifier::from_u32(2), PropertyIdentifier::Normal(2));
    assert_eq!(PropertyIdentifier::from_u32(0x7FFF_FFFF), PropertyIdentifier::Normal(0x7FFF_FFFF));
    assert_eq!(PropertyIdentifier::from_u32(0x8000_0000), PropertyIdentifier::LocaleProperty);
    assert_eq!(PropertyIdentifier::from_u32(0x8000_0003), PropertyIdentifier::BehaviourProperty);
    assert_eq!(PropertyIdentifier::checked_from_u32(0x8000_0001), None);
    assert_eq!(PropertyIdentifier::checked_from_u32(0x8000_0002), None);
    assert_eq!(PropertyIdentifier::checked_from_u32(0xFFFF_FFFF), None);
    assert_eq!(PropertyIdentifier::checked_from_u32(5), Some(PropertyIdentifier::Normal(5)));
}

#[test]
fn dictionary_gives_the_first_name_of_an_identifier() {
    let d = DictionaryPropertyType {
        dictionary: vec![("a".to_string(), 2), ("b".to_string(), 3), ("c".to_string(), 2)],
    };
    assert_eq!(d.get_name(2), Some(&"a".to_string()));
    assert_eq!(d.get_name(3), Some(&"b".to_string()));
    assert_eq!(d.get_name(4), None);
    assert_eq!(DictionaryPropertyType { dictionary: vec![] }.get_name(0), None);
}
