use doc_anal::{DecodeError, FromCStruct, FromReader, SubReader, FCPGDOLD, PCD, PLCF, RgIdOffset};

fn pcd_bytes(bitfield: u16, fc: i32, prm: u16) -> Vec<u8> {
    let mut bytes = Vec::new();
    bytes.extend_from_slice(&bitfield.to_be_bytes());
    bytes.extend_from_slice(&fc.to_le_bytes());
    bytes.extend_from_slice(&prm.to_be_bytes());
    bytes
}

fn plex_block(boundaries: &[i32], records: &[Vec<u8>]) -> Vec<u8> {
    let mut block = Vec::new();
    for b in boundaries {
        block.extend_from_slice(&b.to_le_bytes());
    }
    for r in records {
        block.extend_from_slice(r);
    }
    block
}

#[test]
fn plex_of_one_record_of_eight_bytes() {
    // Twenty bytes hold one record of eight bytes, (20 - 4) / (4 + 8) = 1, and
    // four bytes more than two positions and one record take: the block is
    // malformed. Sixteen bytes are the block of one record.
    assert_eq!((20 - 4) / (4 + 8), 1);
    assert_eq!((20 - 4) % (4 + 8), 4);
    let mut block = plex_block(&[0, 100], &[pcd_bytes(0x8123, 0x0400, 0xABCD)]);
    assert_eq!(block.len(), 16);
    assert_eq!((block.len() - 4) / (4 + PCD::c_size()), 1);
    let plex = PLCF::<PCD>::from_bytes(&block).unwrap();
    assert_eq!(plex.rgfc, vec![0, 100]);
    assert_eq!(plex.rgfc.len(), 2);
    assert_eq!(plex.rgstruct.len(), 1);
    let pcd = &plex.rgstruct[0];
    assert!(pcd.fNoParaLast);
    assert_eq!(pcd.rest_of_bitfield, [false, false, false]);
    assert_eq!(pcd.fn_val, 0x0123);
    assert_eq!(pcd.fc, 0x0400);
    assert_eq!(pcd.prm, 0xABCD);
    block.extend_from_slice(&[0; 4]);
    assert_eq!(block.len(), 20);
    assert_eq!(PLCF::<PCD>::from_bytes(&block).err(), Some(DecodeError::MalformedPlex));
}

#[test]
fn plex_of_four_bytes_is_empty_and_valid() {
    let block = plex_block(&[-7], &[]);
    assert_eq!(block.len(), 4);
    let plex = PLCF::<PCD>::from_bytes(&block).unwrap();
    assert_eq!(plex.rgfc, vec![-7]);
    assert!(plex.rgstruct.is_empty());
}

#[test]
fn plex_with_a_remainder_is_malformed() {
    for len in [5usize, 15, 17, 19, 21, 27] {
        let block = vec![0u8; len];
        assert_eq!(PLCF::<PCD>::from_bytes(&block).err(), Some(DecodeError::MalformedPlex), "{}", len);
    }
    for len in [16usize, 28, 40] {
        let block = vec![0u8; len];
        let plex = PLCF::<PCD>::from_bytes(&block).unwrap();
        assert_eq!(plex.rgstruct.len(), (len - 4) / 12);
        assert_eq!(plex.rgfc.len(), plex.rgstruct.len() + 1);
    }
}

#[test]
fn plex_shorter_than_one_position_is_cut_short() {
    for len in 0..4usize {
        let block = vec![0u8; len];
        assert_eq!(PLCF::<PCD>::from_bytes(&block).err(), Some(DecodeError::UnexpectedEof));
    }
}

#[test]
fn plex_keeps_positions_as_stored() {
    let records = vec![pcd_bytes(0x4000, -2, 1), pcd_bytes(0x2FFF, i32::MAX, 0), pcd_bytes(0, i32::MIN, 0xFFFF)];
    let boundaries = [50, -1, i32::MAX, i32::MIN];
    let plex = PLCF::<PCD>::from_bytes(&plex_block(&boundaries, &records)).unwrap();
    assert_eq!(plex.rgfc, boundaries.to_vec());
    assert_eq!(plex.rgstruct.len(), 3);
    assert_eq!(plex.rgstruct[0].rest_of_bitfield, [true, false, false]);
    assert_eq!(plex.rgstruct[0].fc, -2);
    assert_eq!(plex.rgstruct[0].prm, 1);
    assert_eq!(plex.rgstruct[1].rest_of_bitfield, [false, true, false]);
    assert_eq!(plex.rgstruct[1].fn_val, 0x0FFF);
    assert_eq!(plex.rgstruct[1].fc, i32::MAX);
    assert_eq!(plex.rgstruct[2].fc, i32::MIN);
    assert_eq!(plex.rgstruct[2].prm, 0xFFFF);
    assert!(!plex.rgstruct[2].fNoParaLast);
}

#[test]
fn plex_block_built_from_arrays_decodes_to_them() {
    let records: Vec<Vec<u8>> = (0..5u8).map(|i| vec![i; 20]).collect();
    let boundaries = [1, 2, 3, 5, 8, 13];
    let plex = PLCF::<RgIdOffset>::from_bytes(&plex_block(&boundaries, &records)).unwrap();
    assert_eq!(plex.rgfc, boundaries.to_vec());
    assert_eq!(plex.rgstruct.len(), 5);
    for (i, record) in plex.rgstruct.iter().enumerate() {
        let b = i as u8;
        assert_eq!(record.formatID, [b; 16]);
        assert_eq!(record.sectionOffset, u32::from_le_bytes([b; 4]));
    }
}

#[test]
fn fixed_records_have_their_sizes() {
    assert_eq!(PCD::c_size(), 8);
    assert_eq!(FCPGDOLD::c_size(), 16);
    assert_eq!(RgIdOffset::c_size(), 20);
}

#[test]
fn page_descriptor_locator_is_four_words() {
    let mut bytes = Vec::new();
    bytes.extend_from_slice(&(-5i32).to_le_bytes());
    bytes.extend_from_slice(&0xFEDC_BA98u32.to_le_bytes());
    bytes.extend_from_slice(&0x0102_0304i32.to_le_bytes());
    bytes.extend_from_slice(&7u32.to_le_bytes());
    let v = FCPGDOLD::from_bytes(&bytes);
    assert_eq!((v.fcPgd, v.lcbPgd, v.fcBkd, v.lcbBkd), (-5, 0xFEDC_BA98, 0x0102_0304, 7));
}

#[test]
fn section_record_is_identifier_and_offset() {
    let mut bytes: Vec<u8> = (1..=16).collect();
    bytes.extend_from_slice(&0x30u32.to_le_bytes());
    let v = RgIdOffset::from_bytes(&bytes);
    assert_eq!(v.formatID, [1, 2, 3, 4, 5, 6, 7, 8, 9, 10, 11, 12, 13, 14, 15, 16]);
    assert_eq!(v.sectionOffset, 0x30);
}

fn piece_table(tag: u8, block: &[u8]) -> Vec<u8> {
    let mut bytes = vec![tag];
    bytes.extend_from_slice(&(block.len() as u32).to_le_bytes());
    bytes.extend_from_slice(block);
    bytes
}

#[test]
fn piece_table_is_tag_length_and_plex() {
    let block = plex_block(&[0, 10, 25], &[pcd_bytes(0x8000, 0x600, 0), pcd_bytes(0, 0x700, 2)]);
    let mut bytes = piece_table(2, &block);
    bytes.extend_from_slice(&[0xEE, 0xEE]);
    let mut reader = SubReader::new(&bytes, 0);
    let plex = PLCF::<PCD>::from_reader(&mut reader).unwrap();
    assert_eq!(plex.rgfc, vec![0, 10, 25]);
    assert_eq!(plex.rgstruct.len(), 2);
    assert_eq!(plex.rgstruct[1].fc, 0x700);
    assert_eq!(reader.stream_position(), 5 + block.len());
}

#[test]
fn piece_table_with_another_tag_is_unsupported() {
    let block = plex_block(&[0], &[]);
    for tag in [0u8, 1, 3, 255] {
        let bytes = piece_table(tag, &block);
        let mut reader = SubReader::new(&bytes, 0);
        assert_eq!(PLCF::<PCD>::from_reader(&mut reader).err(), Some(DecodeError::UnsupportedVariant));
    }
}

#[test]
fn piece_table_errors_name_their_cause() {
    let mut reader = SubReader::new(&[], 0);
    assert_eq!(PLCF::<PCD>::from_reader(&mut reader).err(), Some(DecodeError::UnexpectedEof));
    let short = [2u8, 4, 0];
    let mut reader = SubReader::new(&short, 0);
    assert_eq!(PLCF::<PCD>::from_reader(&mut reader).err(), Some(DecodeError::UnexpectedEof));
    let missing = [2u8, 16, 0, 0, 0, 1, 2, 3];
    let mut reader = SubReader::new(&missing, 0);
    assert_eq!(PLCF::<PCD>::from_reader(&mut reader).err(), Some(DecodeError::UnexpectedEof));
    let small = piece_table(2, &[1, 2]);
    let mut reader = SubReader::new(&small, 0);
    assert_eq!(PLCF::<PCD>::from_reader(&mut reader).err(), Some(DecodeError::UnexpectedEof));
    let ragged = piece_table(2, &[0u8; 18]);
    let mut reader = SubReader::new(&ragged, 0);
    assert_eq!(PLCF::<PCD>::from_reader(&mut reader).err(), Some(DecodeError::MalformedPlex));
}
