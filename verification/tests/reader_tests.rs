use doc_anal::{DecodeError, SubReader};

#[test]
fn reader_reads_little_and_big_endian() {
    let bytes = [0x01u8, 0x02, 0x03, 0x04, 0x05, 0x06, 0x07, 0x08, 0xFF];
    let mut reader = SubReader::new(&bytes, 0);
    assert_eq!(reader.read_u16_le(), Ok(0x0201));
    assert_eq!(reader.stream_position(), 2);
    reader.seek(0).unwrap();
    assert_eq!(reader.read_u16_be(), Ok(0x0102));
    reader.seek(0).unwrap();
    assert_eq!(reader.read_u32_le(), Ok(0x0403_0201));
    reader.seek(0).unwrap();
    assert_eq!(reader.read_u64_le(), Ok(0x0807_0605_0403_0201));
    reader.seek(0).unwrap();
    assert_eq!(reader.read_u64_be(), Ok(0x0102_0304_0506_0708));
    assert_eq!(reader.read_u8(), Ok(0xFF));
    assert_eq!(reader.read_u8(), Err(DecodeError::UnexpectedEof));
}

#[test]
fn reader_reads_signed_values() {
    let bytes = [0xFEu8, 0xFF, 0xFF, 0xFF, 0xFF, 0xFF, 0xFF, 0xFF, 0x80, 0x7F];
    let mut reader = SubReader::new(&bytes, 0);
    assert_eq!(reader.read_i16_le(), Ok(-2));
    reader.seek(0).unwrap();
    assert_eq!(reader.read_i32_le(), Ok(-2));
    reader.seek(0).unwrap();
    assert_eq!(reader.read_i64_le(), Ok(-2));
    assert_eq!(reader.read_i8(), Ok(-128));
    assert_eq!(reader.read_i8(), Ok(127));
    let bytes = [0x00u8, 0x80, 0x00, 0x00, 0x00, 0x80];
    let mut reader = SubReader::new(&bytes, 0);
    assert_eq!(reader.read_i16_le(), Ok(i16::MIN));
    assert_eq!(reader.read_i32_le(), Ok(i32::MIN));
}

#[test]
fn reader_fails_at_the_end_and_stays() {
    let bytes = [1u8, 2, 3];
    let mut reader = SubReader::new(&bytes, 0);
    assert_eq!(reader.read_u32_le(), Err(DecodeError::UnexpectedEof));
    assert_eq!(reader.stream_position(), 0);
    assert_eq!(reader.read_exact(4), Err(DecodeError::UnexpectedEof));
    assert_eq!(reader.read_exact(3), Ok(vec![1, 2, 3]));
    assert_eq!(reader.read_exact(0), Ok(vec![]));
    assert_eq!(reader.read_u16_le(), Err(DecodeError::UnexpectedEof));
    reader.seek(100).unwrap();
    assert_eq!(reader.stream_position(), 100);
    assert_eq!(reader.read_u8(), Err(DecodeError::UnexpectedEof));
    assert_eq!(reader.seek(usize::MAX), Ok(()));
}

#[test]
fn reader_counts_offsets_from_its_origin() {
    let bytes = [9u8, 9, 9, 9, 0x34, 0x12, 0x78, 0x56];
    let mut reader = SubReader::new(&bytes, 4);
    assert_eq!(reader.origin(), 4);
    assert_eq!(reader.stream_position(), 4);
    assert_eq!(reader.read_u16_le(), Ok(0x1234));
    reader.seek(2).unwrap();
    assert_eq!(reader.stream_position(), 6);
    assert_eq!(reader.read_u16_le(), Ok(0x5678));
    reader.seek(0).unwrap();
    assert_eq!(reader.read_u16_le(), Ok(0x1234));
    let outer = SubReader::new(&bytes, 2);
    let mut inner = outer.section(4).unwrap();
    assert_eq!(inner.origin(), 6);
    assert_eq!(inner.read_u16_le(), Ok(0x5678));
    assert!(outer.section(usize::MAX).is_none());
    let mut far = SubReader::new(&bytes, 1);
    assert_eq!(far.seek(usize::MAX), Err(DecodeError::UnexpectedEof));
    assert_eq!(far.get_ref(), &bytes[..]);
}

#[test]
fn reader_reads_runs_of_units() {
    let bytes = [0x00u8, 0x41, 0x00, 0x42, 0x12, 0x34, 0xFF];
    let mut reader = SubReader::new(&bytes, 0);
    assert_eq!(reader.read_u16_into_be(3), Ok(vec![0x0041, 0x0042, 0x1234]));
    assert_eq!(reader.stream_position(), 6);
    assert_eq!(reader.read_u16_into_be(1), Err(DecodeError::UnexpectedEof));
    assert_eq!(reader.read_u16_into_be(0), Ok(vec![]));
    assert_eq!(reader.read_u16_into_be(usize::MAX), Err(DecodeError::UnexpectedEof));
    let view = reader.take(1).unwrap();
    assert_eq!(view, &[0xFF]);
}

#[test]
fn errors_have_names() {
    assert_eq!(DecodeError::UnexpectedEof.name(), "UnexpectedEof");
    assert_eq!(DecodeError::UnsupportedVariant.name(), "UnsupportedVariant");
    assert_eq!(DecodeError::MalformedPlex.name(), "MalformedPlex");
    assert_eq!(DecodeError::MalformedLayout.name(), "MalformedLayout");
    assert_eq!(DecodeError::InvalidText.name(), "InvalidText");
}
