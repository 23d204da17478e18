use doc_anal::property_value::{clone_value, read_run, read_value, read_values};
use doc_anal::{
    DecodeError, DictionaryPropertyType, FromReader, NormalPropertyType, PropertyIdentifier,
    PropertySet, PropertySetStream, PropertyType, SubReader,
};

fn tagged(tag: u16, payload: &[u8]) -> Vec<u8> {
    let mut b = Vec::new();
    b.extend_from_slice(&tag.to_le_bytes());
    b.extend_from_slice(payload);
    b
}

fn counted(tag: u16, count: u32, payload: &[u8]) -> Vec<u8> {
    let mut p = count.to_le_bytes().to_vec();
    p.extend_from_slice(payload);
    tagged(tag, &p)
}

fn decode(bytes: &[u8]) -> Result<NormalPropertyType, DecodeError> {
    NormalPropertyType::from_reader(&mut SubReader::new(bytes, 0))
}

fn decode_all(bytes: &[u8]) -> NormalPropertyType {
    let mut reader = SubReader::new(bytes, 0);
    let v = read_value(&mut reader).unwrap();
    assert_eq!(reader.stream_position(), bytes.len());
    v
}

#[test]
fn tag_three_with_five_is_signed_32_five() {
    let bytes = [0x03u8, 0x00, 0x05, 0x00, 0x00, 0x00];
    assert_eq!(decode(&bytes), Ok(NormalPropertyType::VT_I4(5)));
    assert_eq!(tagged(0x0003, &[0x05, 0x00, 0x00, 0x00]), bytes.to_vec());
    let mut reader = SubReader::new(&bytes, 0);
    assert_eq!(read_value(&mut reader), Ok(NormalPropertyType::VT_I4(5)));
    assert_eq!(reader.stream_position(), 6);
}

#[test]
fn payload_stands_right_behind_the_tag() {
    assert_eq!(decode(&[0x02, 0x00, 0x34, 0x12]), Ok(NormalPropertyType::VT_I2(0x1234)));
    assert_eq!(decode(&[0x11, 0x00, 0x7F]), Ok(NormalPropertyType::VT_UI1(0x7F)));
    assert_eq!(
        decode(&[0x1E, 0x00, 0x02, 0x00, 0x00, 0x00, b'o', b'k']),
        Ok(NormalPropertyType::VT_LPSTR("ok".to_string()))
    );
    assert_eq!(
        decode(&[0x02, 0x10, 0x02, 0x00, 0x00, 0x00, 1, 0, 2, 0]),
        Ok(NormalPropertyType::VT_VECTOR_VT_I2(vec![1, 2]))
    );
    assert_eq!(decode(&[0x03, 0x00, 0x00, 0x00, 0x05, 0x00, 0x00, 0x00]), Ok(NormalPropertyType::VT_I4(0x0005_0000)));
}

#[test]
fn runs_beyond_the_end_are_cut_short() {
    let bytes = [1u8, 0, 2, 0];
    let mut reader = SubReader::new(&bytes, 0);
    reader.seek(9).unwrap();
    assert_eq!(read_values(&mut reader, 0), Err(DecodeError::UnexpectedEof));
    assert_eq!(read_values(&mut reader, 3), Err(DecodeError::UnexpectedEof));
    assert_eq!(read_run::<u16>(&mut reader, 0), Err(DecodeError::UnexpectedEof));
    assert_eq!(read_run::<u8>(&mut reader, 1), Err(DecodeError::UnexpectedEof));
    reader.seek(4).unwrap();
    assert_eq!(read_values(&mut reader, 0), Ok(vec![]));
    assert_eq!(read_run::<u16>(&mut reader, 0), Ok(vec![]));
    assert_eq!(read_run::<u16>(&mut reader, 1), Err(DecodeError::UnexpectedEof));
    reader.seek(0).unwrap();
    assert_eq!(read_run::<u16>(&mut reader, 2), Ok(vec![1, 2]));
    assert_eq!(reader.stream_position(), 4);
    reader.seek(0).unwrap();
    assert_eq!(read_run::<i32>(&mut reader, 1), Ok(vec![0x0002_0001]));
}

#[test]
fn values_without_payload() {
    assert_eq!(decode_all(&tagged(0x0000, &[])), NormalPropertyType::VT_EMPTY);
    assert_eq!(decode_all(&tagged(0x0001, &[])), NormalPropertyType::VT_NULL);
}

#[test]
fn values_of_fixed_width() {
    assert_eq!(decode_all(&tagged(0x0002, &[0xFE, 0xFF])), NormalPropertyType::VT_I2(-2));
    assert_eq!(decode_all(&tagged(0x0003, &[0xFF, 0xFF, 0xFF, 0x7F])), NormalPropertyType::VT_I4(i32::MAX));
    assert_eq!(decode_all(&tagged(0x0006, &(-9i64).to_le_bytes())), NormalPropertyType::VT_CY(-9));
    assert_eq!(decode_all(&tagged(0x000A, &[1, 0, 0, 0x80])), NormalPropertyType::VT_ERROR(0x8000_0001));
    assert_eq!(decode_all(&tagged(0x0010, &[0x80])), NormalPropertyType::VT_I1(-128));
    assert_eq!(decode_all(&tagged(0x0011, &[0x80])), NormalPropertyType::VT_UI1(128));
    assert_eq!(decode_all(&tagged(0x0012, &[0x34, 0x12])), NormalPropertyType::VT_UI2(0x1234));
    assert_eq!(decode_all(&tagged(0x0013, &[4, 3, 2, 1])), NormalPropertyType::VT_UI4(0x0102_0304));
    assert_eq!(decode_all(&tagged(0x0014, &i64::MIN.to_le_bytes())), NormalPropertyType::VT_I8(i64::MIN));
    assert_eq!(decode_all(&tagged(0x0015, &u64::MAX.to_le_bytes())), NormalPropertyType::VT_UI8(u64::MAX));
    assert_eq!(decode_all(&tagged(0x0016, &(-1i32).to_le_bytes())), NormalPropertyType::VT_INT(-1));
    assert_eq!(decode_all(&tagged(0x0017, &7u32.to_le_bytes())), NormalPropertyType::VT_UINT(7));
    let t = 0x01C8_80DD_73DC_3C00u64;
    assert_eq!(decode_all(&tagged(0x0040, &t.to_le_bytes())), NormalPropertyType::VT_FILETIME(t));
    assert_eq!(decode_all(&tagged(0x0042, &1u64.to_le_bytes())), NormalPropertyType::VT_STREAM(1));
    assert_eq!(decode_all(&tagged(0x0043, &2u64.to_le_bytes())), NormalPropertyType::VT_STORAGE(2));
    assert_eq!(decode_all(&tagged(0x0044, &3u64.to_le_bytes())), NormalPropertyType::VT_STREAMED_OBJECT(3));
    assert_eq!(decode_all(&tagged(0x0045, &4u64.to_le_bytes())), NormalPropertyType::VT_STORED_OBJECT(4));
    assert_eq!(decode_all(&tagged(0x0047, &5u32.to_le_bytes())), NormalPropertyType::VT_CF(5));
    let id: Vec<u8> = (100..116).collect();
    let mut expected = [0u8; 16];
    expected.copy_from_slice(&id);
    assert_eq!(decode_all(&tagged(0x0048, &id)), NormalPropertyType::VT_CLSID(expected));
}

#[test]
fn floating_point_values_keep_their_bits() {
    let single = 1.5f32;
    let double = -2.25f64;
    assert_eq!(decode_all(&tagged(0x0004, &single.to_le_bytes())), NormalPropertyType::VT_R4(single.to_bits()));
    assert_eq!(decode_all(&tagged(0x0005, &double.to_le_bytes())), NormalPropertyType::VT_R8(double.to_bits()));
    assert_eq!(decode_all(&tagged(0x0007, &double.to_be_bytes())), NormalPropertyType::VT_DATE(double.to_bits()));
    assert_eq!(decode_all(&tagged(0x000E, &double.to_le_bytes())), NormalPropertyType::VT_DECIMAL(double.to_bits()));
    match decode_all(&tagged(0x0005, &double.to_le_bytes())) {
        NormalPropertyType::VT_R8(bits) => assert_eq!(f64::from_bits(bits), -2.25),
        other => panic!("{:?}", other),
    }
}

#[test]
fn truth_value_is_a_word_that_is_not_zero() {
    assert_eq!(decode_all(&tagged(0x000B, &[0, 0])), NormalPropertyType::VT_BOOL(false));
    assert_eq!(decode_all(&tagged(0x000B, &[0xFF, 0xFF])), NormalPropertyType::VT_BOOL(true));
    assert_eq!(decode_all(&tagged(0x000B, &[0, 1])), NormalPropertyType::VT_BOOL(true));
    assert_eq!(decode_all(&tagged(0x000B, &[1, 0])), NormalPropertyType::VT_BOOL(true));
}

#[test]
fn texts_and_blobs_are_length_prefixed() {
    assert_eq!(decode_all(&counted(0x001E, 4, b"Joe\0")), NormalPropertyType::VT_LPSTR("Joe\0".to_string()));
    assert_eq!(decode_all(&counted(0x001E, 0, b"")), NormalPropertyType::VT_LPSTR(String::new()));
    assert_eq!(decode_all(&counted(0x001E, 2, &[0xC3, 0xA9])), NormalPropertyType::VT_LPSTR("é".to_string()));
    assert_eq!(
        decode_all(&counted(0x001F, 4, &[0x00, 0x48, 0x00, 0x69])),
        NormalPropertyType::VT_LPWSTR("Hi".to_string())
    );
    assert_eq!(
        decode_all(&counted(0x0008, 5, &[0x00, 0x48, 0x04, 0x16, 0xFF])),
        NormalPropertyType::VT_BSTR("H\u{0416}".to_string())
    );
    assert_eq!(decode_all(&counted(0x0041, 3, &[9, 8, 7])), NormalPropertyType::VT_BLOB(vec![9, 8, 7]));
    assert_eq!(decode_all(&counted(0x0046, 1, &[6])), NormalPropertyType::VT_BLOB_OBJECT(vec![6]));
}

#[test]
fn ill_formed_text_is_invalid_text() {
    assert_eq!(decode(&counted(0x001E, 2, &[0xC3, 0x28])), Err(DecodeError::InvalidText));
    assert_eq!(decode(&counted(0x001E, 1, &[0xFF])), Err(DecodeError::InvalidText));
    assert_eq!(decode(&counted(0x001F, 2, &[0xD8, 0x00])), Err(DecodeError::InvalidText));
    assert_eq!(decode(&counted(0x0008, 4, &[0xDC, 0x00, 0xD8, 0x00])), Err(DecodeError::InvalidText));
    assert_eq!(
        decode_all(&counted(0x0008, 4, &[0xD8, 0x3D, 0xDE, 0x00])),
        NormalPropertyType::VT_BSTR("\u{1F600}".to_string())
    );
}

#[test]
fn unknown_tag_is_kept_as_data() {
    for tag in [0x0009u16, 0x000C, 0x000D, 0x000F, 0x0049, 0x1000, 0x1007, 0x2003, 0xFFFF] {
        let mut bytes = tagged(tag, &[1, 2, 3, 4, 5, 6, 7, 8]);
        let mut reader = SubReader::new(&bytes, 0);
        assert_eq!(read_value(&mut reader), Ok(NormalPropertyType::Unknown(tag)));
        assert_eq!(reader.stream_position(), 2);
        bytes.truncate(2);
        assert_eq!(decode(&bytes), Ok(NormalPropertyType::Unknown(tag)));
    }
}

#[test]
fn vector_has_as_many_items_as_its_count_declares() {
    let mut payload = Vec::new();
    for v in [1i32, -1, 1000] {
        payload.extend_from_slice(&v.to_le_bytes());
    }
    assert_eq!(decode_all(&counted(0x1003, 3, &payload)), NormalPropertyType::VT_VECTOR_VT_I4(vec![1, -1, 1000]));
    assert_eq!(decode_all(&counted(0x1003, 0, &[])), NormalPropertyType::VT_VECTOR_VT_I4(vec![]));
    assert_eq!(decode_all(&counted(0x1002, 2, &[1, 0, 0xFF, 0xFF])), NormalPropertyType::VT_VECTOR_VT_I2(vec![1, -1]));
    assert_eq!(decode_all(&counted(0x1010, 3, &[1, 0x80, 0xFF])), NormalPropertyType::VT_VECTOR_VT_I1(vec![1, -128, -1]));
    assert_eq!(decode_all(&counted(0x1011, 3, &[1, 0x80, 0xFF])), NormalPropertyType::VT_VECTOR_VT_UI1(vec![1, 128, 255]));
    assert_eq!(decode_all(&counted(0x1012, 2, &[1, 0, 0xFF, 0xFF])), NormalPropertyType::VT_VECTOR_VT_UI2(vec![1, 0xFFFF]));
    assert_eq!(decode_all(&counted(0x1013, 1, &[1, 2, 3, 4])), NormalPropertyType::VT_VECTOR_VT_UI4(vec![0x0403_0201]));
    assert_eq!(decode_all(&counted(0x1047, 1, &[1, 2, 3, 4])), NormalPropertyType::VT_VECTOR_VT_CF(vec![0x0403_0201]));
    assert_eq!(
        decode_all(&counted(0x100B, 3, &[0, 0, 1, 0, 0, 1])),
        NormalPropertyType::VT_VECTOR_VT_BOOL(vec![false, true, true])
    );
    let mut wide = Vec::new();
    for v in [5u64, u64::MAX] {
        wide.extend_from_slice(&v.to_le_bytes());
    }
    assert_eq!(decode_all(&counted(0x1015, 2, &wide)), NormalPropertyType::VT_VECTOR_VT_UI8(vec![5, u64::MAX]));
    assert_eq!(decode_all(&counted(0x1014, 2, &wide)), NormalPropertyType::VT_VECTOR_VT_I8(vec![5, -1]));
    assert_eq!(decode_all(&counted(0x1006, 2, &wide)), NormalPropertyType::VT_VECTOR_VT_CY(vec![5, -1]));
    assert_eq!(decode_all(&counted(0x1040, 2, &wide)), NormalPropertyType::VT_VECTOR_VT_FILETIME(vec![5, u64::MAX]));
    assert_eq!(decode_all(&counted(0x1005, 2, &wide)), NormalPropertyType::VT_VECTOR_VT_R8(vec![5, u64::MAX]));
    assert_eq!(decode_all(&counted(0x1004, 1, &2.0f32.to_le_bytes())), NormalPropertyType::VT_VECTOR_VT_R4(vec![2.0f32.to_bits()]));
    let ids: Vec<u8> = (0..32).collect();
    match decode_all(&counted(0x1048, 2, &ids)) {
        NormalPropertyType::VT_VECTOR_VT_CLSID(v) => {
            assert_eq!(v.len(), 2);
            assert_eq!(v[1][0], 16);
            assert_eq!(v[1][15], 31);
        },
        other => panic!("{:?}", other),
    }
}

#[test]
fn vector_shorter_than_its_count_is_cut_short() {
    assert_eq!(decode(&counted(0x1003, 3, &[0u8; 11])), Err(DecodeError::UnexpectedEof));
    assert_eq!(decode(&counted(0x1003, u32::MAX, &[0u8; 64])), Err(DecodeError::UnexpectedEof));
    assert_eq!(decode(&counted(0x1015, 2, &[0u8; 15])), Err(DecodeError::UnexpectedEof));
    assert_eq!(decode(&counted(0x1048, 1, &[0u8; 15])), Err(DecodeError::UnexpectedEof));
    assert_eq!(decode(&tagged(0x1003, &[1, 0, 0])), Err(DecodeError::UnexpectedEof));
    assert_eq!(decode(&counted(0x100C, 2, &tagged(0x0003, &[1, 0, 0, 0]))), Err(DecodeError::UnexpectedEof));
    assert_eq!(decode(&counted(0x101E, 2, &[1, 0, 0, 0, b'a'])), Err(DecodeError::UnexpectedEof));
}

#[test]
fn vector_of_texts_reads_each_text_as_one_of_its_kind() {
    let mut narrow = Vec::new();
    for t in ["Title", "", "x\0"] {
        narrow.extend_from_slice(&(t.len() as u32).to_le_bytes());
        narrow.extend_from_slice(t.as_bytes());
    }
    assert_eq!(
        decode_all(&counted(0x101E, 3, &narrow)),
        NormalPropertyType::VT_VECTOR_VT_LPSTR(vec!["Title".to_string(), String::new(), "x\0".to_string()])
    );
    let mut wide = Vec::new();
    for t in ["Hi", "\u{1F600}"] {
        let units: Vec<u16> = t.encode_utf16().collect();
        wide.extend_from_slice(&((units.len() * 2) as u32).to_le_bytes());
        for u in units {
            wide.extend_from_slice(&u.to_be_bytes());
        }
    }
    assert_eq!(
        decode_all(&counted(0x101F, 2, &wide)),
        NormalPropertyType::VT_VECTOR_VT_LPWSTR(vec!["Hi".to_string(), "\u{1F600}".to_string()])
    );
    assert_eq!(decode(&counted(0x101E, 1, &[1, 0, 0, 0, 0xFF])), Err(DecodeError::InvalidText));
}

#[test]
fn vector_of_values_decodes_each_item_as_a_value() {
    let mut items = Vec::new();
    items.extend_from_slice(&tagged(0x0003, &[5, 0, 0, 0]));
    items.extend_from_slice(&counted(0x001E, 2, b"ab"));
    items.extend_from_slice(&counted(0x100C, 2, &[tagged(0x000B, &[0, 1]), tagged(0x0000, &[])].concat()));
    items.extend_from_slice(&tagged(0x7777, &[]));
    let bytes = counted(0x100C, 4, &items);
    let expected = NormalPropertyType::VT_VECTOR_VT_VARIANT(vec![
        NormalPropertyType::VT_I4(5),
        NormalPropertyType::VT_LPSTR("ab".to_string()),
        NormalPropertyType::VT_VECTOR_VT_VARIANT(vec![NormalPropertyType::VT_BOOL(true), NormalPropertyType::VT_EMPTY]),
        NormalPropertyType::Unknown(0x7777),
    ]);
    assert_eq!(decode_all(&bytes), expected);

    let mut reader = SubReader::new(&items, 0);
    let one_by_one = read_values(&mut reader, 4).unwrap();
    assert_eq!(NormalPropertyType::VT_VECTOR_VT_VARIANT(one_by_one), expected);
    let mut reader = SubReader::new(&items, 0);
    assert_eq!(read_value(&mut reader), Ok(NormalPropertyType::VT_I4(5)));
    assert_eq!(read_value(&mut reader), Ok(NormalPropertyType::VT_LPSTR("ab".to_string())));
}

#[test]
fn values_cut_short_are_unexpected_eof() {
    for len in 0..4 {
        assert_eq!(decode(&[3u8, 0, 0, 0][..len]), Err(DecodeError::UnexpectedEof));
    }
    assert_eq!(decode(&tagged(0x0003, &[1, 2, 3])), Err(DecodeError::UnexpectedEof));
    assert_eq!(decode(&tagged(0x0002, &[1])), Err(DecodeError::UnexpectedEof));
    assert_eq!(decode(&tagged(0x0040, &[0; 7])), Err(DecodeError::UnexpectedEof));
    assert_eq!(decode(&tagged(0x0048, &[0; 15])), Err(DecodeError::UnexpectedEof));
    assert_eq!(decode(&counted(0x001E, 5, b"abcd")), Err(DecodeError::UnexpectedEof));
    assert_eq!(decode(&tagged(0x0041, &[1, 0, 0])), Err(DecodeError::UnexpectedEof));
    assert_eq!(decode(&tagged(0x0010, &[])), Err(DecodeError::UnexpectedEof));
}

#[test]
fn copy_of_a_value_equals_it() {
    let v = NormalPropertyType::VT_VECTOR_VT_VARIANT(vec![
        NormalPropertyType::VT_LPSTR("a".to_string()),
        NormalPropertyType::VT_VECTOR_VT_LPWSTR(vec!["b".to_string(), "c".to_string()]),
        NormalPropertyType::VT_VECTOR_VT_VARIANT(vec![NormalPropertyType::VT_BLOB(vec![1, 2])]),
        NormalPropertyType::VT_CLSID([7; 16]),
        NormalPropertyType::VT_ARRAY_VT_BSTR(vec!["d".to_string()]),
        NormalPropertyType::VT_R8(0x4000_0000_0000_0000),
    ]);
    assert_eq!(clone_value(&v), v);
    assert_eq!(v.clone(), v);
}

fn dictionary_bytes(entries: &[(u32, &[u8])]) -> Vec<u8> {
    let mut b = (entries.len() as u32).to_le_bytes().to_vec();
    for (id, name) in entries {
        b.extend_from_slice(&id.to_le_bytes());
        b.extend_from_slice(&(name.len() as u32).to_le_bytes());
        b.extend_from_slice(name);
    }
    b
}

#[test]
fn dictionary_is_a_count_and_named_identifiers() {
    let bytes = dictionary_bytes(&[(2, b"Project\0"), (0x7FFF_FFFF, b""), (3, "é".as_bytes())]);
    let mut reader = SubReader::new(&bytes, 0);
    let d = DictionaryPropertyType::from_reader(&mut reader).unwrap();
    assert_eq!(
        d.dictionary,
        vec![("Project\0".to_string(), 2), (String::new(), 0x7FFF_FFFF), ("é".to_string(), 3)]
    );
    assert_eq!(reader.stream_position(), bytes.len());
    for len in 0..bytes.len() {
        assert_eq!(
            DictionaryPropertyType::from_reader(&mut SubReader::new(&bytes[..len], 0)).err(),
            Some(DecodeError::UnexpectedEof)
        );
    }
    let bad = dictionary_bytes(&[(2, &[0xC0])]);
    assert_eq!(
        DictionaryPropertyType::from_reader(&mut SubReader::new(&bad, 0)).err(),
        Some(DecodeError::InvalidText)
    );
}

fn section(entries: &[(u32, Vec<u8>)]) -> Vec<u8> {
    let mut directory = Vec::new();
    let mut body = Vec::new();
    let first = 8 + 8 * entries.len();
    for (id, bytes) in entries {
        directory.extend_from_slice(&id.to_le_bytes());
        directory.extend_from_slice(&((first + body.len()) as u32).to_le_bytes());
        body.extend_from_slice(bytes);
    }
    let mut b = ((first + body.len()) as u32).to_le_bytes().to_vec();
    b.extend_from_slice(&(entries.len() as u32).to_le_bytes());
    b.extend_from_slice(&directory);
    b.extend_from_slice(&body);
    b
}

#[test]
fn section_offsets_count_from_the_start_of_the_section() {
    let body = section(&[
        (1, tagged(0x0002, &[0xE4, 0x04])),
        (2, counted(0x001E, 3, b"abc")),
        (0x8000_0000, tagged(0x0013, &[9, 4, 0, 0])),
        (3, tagged(0x0003, &[5, 0, 0, 0])),
    ]);
    let mut bytes = vec![0xEE; 10];
    bytes.extend_from_slice(&body);
    let mut reader = SubReader::new(&bytes, 10);
    let set = PropertySet::from_reader(&mut reader).unwrap();
    assert_eq!(set.cb as usize, body.len());
    assert_eq!(set.cProperties, 4);
    assert_eq!(set.rgProperties[0].propertyIdentifier, PropertyIdentifier::CodePageProperty);
    assert_eq!(set.rgProperties[1].propertyIdentifier, PropertyIdentifier::Normal(2));
    assert_eq!(set.rgProperties[1].propertyOffset, 8 + 32 + 4);
    assert_eq!(set.rgProperties[2].propertyIdentifier, PropertyIdentifier::LocaleProperty);
    assert_eq!(
        set.properties,
        vec![
            PropertyType::NormalPropertyType(NormalPropertyType::VT_LPSTR("abc".to_string())),
            PropertyType::NormalPropertyType(NormalPropertyType::VT_I4(5)),
        ]
    );
    assert_eq!(reader.stream_position(), bytes.len());
}

#[test]
fn section_with_a_dictionary() {
    let body = section(&[(0, dictionary_bytes(&[(2, b"Name")])), (1, tagged(0x0002, &[1, 0])), (2, tagged(0x0003, &[7, 0, 0, 0]))]);
    let set = PropertySet::from_reader(&mut SubReader::new(&body, 0)).unwrap();
    assert_eq!(set.properties.len(), 2);
    assert_eq!(
        set.properties[0],
        PropertyType::DictionaryPropertyType(DictionaryPropertyType { dictionary: vec![("Name".to_string(), 2)] })
    );
    assert_eq!(set.properties[1], PropertyType::NormalPropertyType(NormalPropertyType::VT_I4(7)));
}

#[test]
fn section_with_a_number_that_is_no_identifier_is_malformed() {
    for id in [0x8000_0001u32, 0x8000_0002, 0x8000_0004, 0xFFFF_FFFF] {
        let body = section(&[(2, tagged(0x0000, &[])), (id, tagged(0x0000, &[]))]);
        assert_eq!(
            PropertySet::from_reader(&mut SubReader::new(&body, 0)).err(),
            Some(DecodeError::MalformedLayout)
        );
    }
}

#[test]
fn section_errors_come_in_reading_order() {
    let body = section(&[(2, tagged(0x0003, &[1, 0, 0, 0]))]);
    for len in 0..body.len() {
        assert_eq!(
            PropertySet::from_reader(&mut SubReader::new(&body[..len], 0)).err(),
            Some(DecodeError::UnexpectedEof),
            "{}",
            len
        );
    }
    let mut far = section(&[(2, tagged(0x0000, &[]))]);
    far[12..16].copy_from_slice(&0xFFFF_FFF0u32.to_le_bytes());
    assert_eq!(PropertySet::from_reader(&mut SubReader::new(&far, 0)).err(), Some(DecodeError::UnexpectedEof));
    let mut bad_then_short = section(&[(0x8000_0001, tagged(0x0000, &[]))]);
    bad_then_short.truncate(12);
    assert_eq!(
        PropertySet::from_reader(&mut SubReader::new(&bad_then_short, 0)).err(),
        Some(DecodeError::MalformedLayout)
    );
}

fn stream(sections: &[Vec<u8>]) -> Vec<u8> {
    let mut b = vec![0xFE, 0xFF, 0x01, 0x00, 0x0A, 0x03, 0x02, 0x00];
    b.extend_from_slice(&[0x11; 16]);
    b.extend_from_slice(&(sections.len() as u32).to_le_bytes());
    let mut offset = 28 + 20 * sections.len();
    for (i, s) in sections.iter().enumerate() {
        b.extend_from_slice(&[i as u8; 16]);
        b.extend_from_slice(&(offset as u32).to_le_bytes());
        offset += s.len();
    }
    for s in sections {
        b.extend_from_slice(s);
    }
    b
}

#[test]
fn stream_decodes_each_section_at_its_offset() {
    let first = section(&[(2, tagged(0x0003, &[1, 0, 0, 0]))]);
    let second = section(&[(0, dictionary_bytes(&[(2, b"N")])), (2, tagged(0x000B, &[0xFF, 0xFF]))]);
    let bytes = stream(&[first, second]);
    let mut reader = SubReader::new(&bytes, 0);
    let decoded = PropertySetStream::from_reader(&mut reader).unwrap();
    let start = &decoded.propertySetStreamVals;
    assert_eq!(start.byteOrder, 0xFFFE);
    assert_eq!(start.version, 1);
    assert_eq!(start.OSMajorVersion, 0);
    assert_eq!(start.OSMinorVersion, 0x03);
    assert_eq!(start.OSType, 2);
    assert_eq!(start.applicationClsid, [0x11; 16]);
    assert_eq!(start.num_property_sets, 2);
    assert_eq!(start.rgIdOffset[1].formatID, [1; 16]);
    assert_eq!(decoded.propertySets.len(), 2);
    assert_eq!(
        decoded.propertySets[0].properties,
        vec![PropertyType::NormalPropertyType(NormalPropertyType::VT_I4(1))]
    );
    assert_eq!(decoded.propertySets[1].properties.len(), 2);
    assert_eq!(reader.stream_position(), 28 + 40);
}

#[test]
fn stream_with_a_section_beyond_its_end_is_cut_short() {
    let mut bytes = stream(&[section(&[])]);
    bytes[44..48].copy_from_slice(&5000u32.to_le_bytes());
    assert_eq!(
        PropertySetStream::from_reader(&mut SubReader::new(&bytes, 0)).err(),
        Some(DecodeError::UnexpectedEof)
    );
    let whole = stream(&[section(&[])]);
    for len in 0..whole.len() {
        assert_eq!(
            PropertySetStream::from_reader(&mut SubReader::new(&whole[..len], 0)).err(),
            Some(DecodeError::UnexpectedEof)
        );
    }
    let none = stream(&[]);
    let decoded = PropertySetStream::from_reader(&mut SubReader::new(&none, 0)).unwrap();
    assert!(decoded.propertySets.is_empty());
}
