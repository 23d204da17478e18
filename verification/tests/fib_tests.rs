use doc_anal::fib::{directory_entry, FIB_DIRECTORY_LEN, FIB_SIZE};
use doc_anal::{
    byte_range, fib_from_read_impl, first_out_of_bounds, table_stream_name, DecodeError, Fib,
    FromReader, SubReader,
};

fn block() -> Vec<u8> {
    let mut b = vec![0u8; FIB_SIZE];
    b[0..2].copy_from_slice(&[0xEC, 0xA5]);
    b[2..4].copy_from_slice(&193u16.to_le_bytes());
    b[8..10].copy_from_slice(&(-3i16).to_le_bytes());
    b[0x0A..0x0C].copy_from_slice(&0x0254u16.to_le_bytes());
    b[0x0E..0x12].copy_from_slice(&[0xDE, 0xAD, 0xBE, 0xEF]);
    b[0x12] = 1;
    b[0x13] = 0b1011_0001;
    b[0x18..0x1C].copy_from_slice(&0x600i32.to_le_bytes());
    b[0x44..0x48].copy_from_slice(&0x1234_5678i32.to_le_bytes());
    b[0x4C..0x50].copy_from_slice(&1000i32.to_le_bytes());
    b[0x9A..0x9E].copy_from_slice(&(-1i32).to_le_bytes());
    b[0x9E..0xA2].copy_from_slice(&0xFFFF_FFFFu32.to_le_bytes());
    b[0xA2..0xA6].copy_from_slice(&0x40i32.to_le_bytes());
    b[0xA6..0xAA].copy_from_slice(&0x200u32.to_le_bytes());
    b[0x1A2..0x1A6].copy_from_slice(&0x300i32.to_le_bytes());
    b[0x1A6..0x1AA].copy_from_slice(&0x55i32.to_le_bytes());
    b[0x2E2..0x2E6].copy_from_slice(&0x700i32.to_le_bytes());
    b[0x2E6..0x2EA].copy_from_slice(&0x1Cu32.to_le_bytes());
    b[0x2EA..0x2EE].copy_from_slice(&0x790i32.to_le_bytes());
    b[FIB_SIZE - 2..].copy_from_slice(&0xBEEFu16.to_le_bytes());
    b
}

#[test]
fn root_descriptor_has_a_fixed_size() {
    assert_eq!(FIB_SIZE, 1440);
    assert_eq!(FIB_DIRECTORY_LEN, 146);
}

#[test]
fn root_descriptor_fields_come_from_fixed_places() {
    let bytes = block();
    let mut reader = SubReader::new(&bytes, 0);
    let fib = Fib::from_reader(&mut reader).unwrap();
    assert_eq!(reader.stream_position(), FIB_SIZE);
    assert_eq!(fib.wIdent.bytes, vec![0xEC, 0xA5]);
    assert_eq!(fib.nFib, 193);
    assert_eq!(fib.nProduct, 0);
    assert_eq!(fib.pnNext, -3);
    assert!(!fib.fDot);
    assert!(!fib.fGlsy);
    assert!(fib.fComplex);
    assert!(!fib.fHasPic);
    assert_eq!(fib.cQuickSaves, 5);
    assert!(!fib.fEncrypted);
    assert!(fib.fWhichTblStm);
    assert!(!fib.fReadOnlyRecommended);
    assert!(!fib.fCrypto);
    assert_eq!(fib.lKey.bytes, vec![0xDE, 0xAD, 0xBE, 0xEF]);
    assert_eq!(fib.Envr, 1);
    assert!(fib.fMac);
    assert!(!fib.fEmptySpecial);
    assert!(fib.fWord97Saved);
    assert_eq!(fib.fSpare0, [true, false, true]);
    assert_eq!(fib.fcMin, 0x600);
    assert_eq!(fib.lProductCreated.bytes, vec![0x78, 0x56, 0x34, 0x12]);
    assert_eq!(fib.ccpText, 1000);
    assert_eq!(fib.fcStshfOrig, -1);
    assert_eq!(fib.lcbStshfOrig, 0xFFFF_FFFF);
    assert_eq!(fib.fcStshf, 0x40);
    assert_eq!(fib.lcbStshf, 0x200);
    assert_eq!(fib.fcClx, 0x300);
    assert_eq!(fib.lcbClx, 0x55);
    assert_eq!(fib.fcPlcfLst, 0x700);
    assert_eq!(fib.lcbPlcfLst, 0x1C);
    assert_eq!(fib.fcPlfLfo, 0x790);
    assert_eq!(fib.cQuickSavesNew, 0xBEEF);
    assert_eq!(fib.fcpgdMother.fcPgd, 0);
}

#[test]
fn root_descriptor_flags_are_single_bits() {
    let mut bytes = vec![0u8; FIB_SIZE];
    bytes[0x0A..0x0C].copy_from_slice(&0x0004u16.to_le_bytes());
    let fib = Fib::from_reader(&mut SubReader::new(&bytes, 0)).unwrap();
    assert!(fib.fComplex);
    assert!(!fib.fWhichTblStm);
    assert_eq!(table_stream_name(&fib), "0Table");
    bytes[0x0A..0x0C].copy_from_slice(&0x0200u16.to_le_bytes());
    let fib = Fib::from_reader(&mut SubReader::new(&bytes, 0)).unwrap();
    assert!(!fib.fComplex);
    assert!(fib.fWhichTblStm);
    assert_eq!(table_stream_name(&fib), "1Table");
    bytes[0x0A..0x0C].copy_from_slice(&0xFDFBu16.to_le_bytes());
    let fib = Fib::from_reader(&mut SubReader::new(&bytes, 0)).unwrap();
    assert!(!fib.fComplex && !fib.fWhichTblStm);
    assert!(fib.fDot && fib.fGlsy && fib.fHasPic && fib.fEncrypted && fib.fCrypto && fib.fFarEast);
    assert_eq!(fib.cQuickSaves, 15);
}

#[test]
fn root_descriptor_cut_short_is_unexpected_eof() {
    let bytes = block();
    for len in [0usize, 1, 32, 0x9A, 1000, FIB_SIZE - 1] {
        assert_eq!(
            Fib::from_reader(&mut SubReader::new(&bytes[..len], 0)).err(),
            Some(DecodeError::UnexpectedEof),
            "{}",
            len
        );
        assert_eq!(fib_from_read_impl(&mut SubReader::new(&bytes[..len], 0)).err(), Some(DecodeError::UnexpectedEof));
    }
    let mut longer = bytes.clone();
    longer.extend_from_slice(&[1, 2, 3]);
    assert!(Fib::from_reader(&mut SubReader::new(&longer, 0)).is_ok());
}

#[test]
fn root_descriptor_is_read_from_the_origin() {
    let mut bytes = vec![0x77u8; 5];
    bytes.extend_from_slice(&block());
    let mut reader = SubReader::new(&bytes, 5);
    reader.seek(100).unwrap();
    let fib = Fib::from_reader(&mut reader).unwrap();
    assert_eq!(fib.nFib, 193);
    assert_eq!(reader.stream_position(), 5 + FIB_SIZE);
}

#[test]
fn directory_names_what_each_entry_locates() {
    let bytes = block();
    let (fib, pairs) = fib_from_read_impl(&mut SubReader::new(&bytes, 0)).unwrap();
    assert_eq!(pairs.len(), 146);
    assert_eq!(pairs[0], (-1, 0xFFFF_FFFF, "Original STSH structure".to_string()));
    assert_eq!(pairs[1], (0x40, 0x200, "STSH structure".to_string()));
    assert_eq!(pairs[1].0, fib.fcStshf);
    assert_eq!(pairs[33], (0x300, 0x55, "Complex File Information".to_string()));
    assert_eq!(pairs[2].2, "Footnote reference PLCF of FRD structures");
    assert_eq!(pairs[145].2, "Internal revision mark view information");
    assert_eq!(pairs[with_lists_index(&pairs)].2, "list format intformation table");
    let with_lists: Vec<usize> = (0..pairs.len()).filter(|i| pairs[*i].0 == 0x700).collect();
    assert_eq!(with_lists.len(), 1);
    assert_eq!(pairs[with_lists[0]].1, 0x1C);
    assert_eq!(pairs[with_lists[0] + 1].0, 0x790);
}

fn with_lists_index(pairs: &Vec<(i32, u32, String)>) -> usize {
    (0..pairs.len()).find(|i| pairs[*i].0 == 0x700).unwrap()
}

#[test]
fn directory_entries_lie_in_the_block() {
    let mut seen = Vec::new();
    for i in 0..FIB_DIRECTORY_LEN {
        let (at, what) = directory_entry(i);
        assert!(at + 8 <= FIB_SIZE);
        assert!(at >= 0x9A);
        assert!(!what.is_empty());
        assert!(!seen.contains(&at));
        seen.push(at);
    }
    assert_eq!(directory_entry(0), (0x9A, "Original STSH structure"));
    assert_eq!(directory_entry(1), (0xA2, "STSH structure"));
}

#[test]
fn directory_entry_of_zero_bytes_is_absent() {
    assert_eq!(byte_range(100, 0, 10), Ok(None));
    assert_eq!(byte_range(-5, 0, 10), Ok(None));
    assert_eq!(byte_range(0, 10, 10), Ok(Some((0, 10))));
    assert_eq!(byte_range(3, 4, 10), Ok(Some((3, 7))));
    assert_eq!(byte_range(3, 8, 10), Err(DecodeError::MalformedLayout));
    assert_eq!(byte_range(-1, 1, 10), Err(DecodeError::MalformedLayout));
    assert_eq!(byte_range(10, 1, 10), Err(DecodeError::MalformedLayout));
    assert_eq!(byte_range(i32::MAX, u32::MAX, usize::MAX / 2), Ok(Some((i32::MAX as usize, i32::MAX as usize + u32::MAX as usize))));
}

#[test]
fn directory_is_checked_against_the_table_stream() {
    let bytes = block();
    let (_, pairs) = fib_from_read_impl(&mut SubReader::new(&bytes, 0)).unwrap();
    assert_eq!(first_out_of_bounds(&pairs, 0x10000), Some(0));
    let pairs: Vec<(i32, u32, String)> = pairs.into_iter().skip(1).collect();
    assert_eq!(first_out_of_bounds(&pairs, 0x10000), None);
    assert_eq!(first_out_of_bounds(&pairs, 0x23F), Some(0));
    assert_eq!(first_out_of_bounds(&pairs, 0x240), Some(32));
    assert_eq!(first_out_of_bounds(&vec![], 0), None);
}
