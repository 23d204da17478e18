use doc_anal::{DecodeError, FromReader, LSTs, SubReader};

fn lstf(lsid: i32, tplc: i32, flags: u8) -> Vec<u8> {
    let mut b = Vec::new();
    b.extend_from_slice(&lsid.to_le_bytes());
    b.extend_from_slice(&tplc.to_le_bytes());
    for i in 0..9u16 {
        b.extend_from_slice(&(0x0FF0 + i).to_le_bytes());
    }
    b.push(flags);
    b.push(0x5A);
    assert_eq!(b.len(), 28);
    b
}

fn lvl(start_at: i32, bitfield: u8, papx: &[u8], chpx: &[u8], text: &str) -> Vec<u8> {
    let mut b = Vec::new();
    b.extend_from_slice(&start_at.to_le_bytes());
    b.push(0x17);
    b.push(bitfield);
    b.extend_from_slice(&[1, 2, 3, 4, 5, 6, 7, 8, 9]);
    b.push(0x02);
    b.extend_from_slice(&(-100i32).to_le_bytes());
    b.extend_from_slice(&360i32.to_le_bytes());
    b.push(papx.len() as u8);
    b.push(chpx.len() as u8);
    b.push(0x0C);
    b.push(0x0D);
    assert_eq!(b.len(), 28);
    b.extend_from_slice(papx);
    b.extend_from_slice(chpx);
    let units: Vec<u16> = text.encode_utf16().collect();
    b.extend_from_slice(&(units.len() as u16).to_le_bytes());
    for u in units {
        b.extend_from_slice(&u.to_be_bytes());
    }
    b
}

fn table(headers: &[Vec<u8>], levels: &[Vec<u8>]) -> Vec<u8> {
    let mut b = Vec::new();
    b.extend_from_slice(&(headers.len() as u16).to_le_bytes());
    for h in headers {
        b.extend_from_slice(h);
    }
    for l in levels {
        b.extend_from_slice(l);
    }
    b
}

#[test]
fn simple_list_has_one_level_and_full_list_nine() {
    let headers = vec![lstf(1, 2, 0x01), lstf(3, 4, 0x10), lstf(5, 6, 0x11)];
    let mut levels = Vec::new();
    for i in 0..11 {
        levels.push(lvl(i, 0, &[i as u8; 3], &[0xCC; 2], "%1."));
    }
    let bytes = table(&headers, &levels);
    let mut reader = SubReader::new(&bytes, 0);
    let lists = LSTs::from_reader(&mut reader).unwrap();
    assert_eq!(lists.num_LSTs, 3);
    assert_eq!(lists.LSTs.len(), 3);
    assert!(lists.LSTs[0].lstf.fSimpleList());
    assert!(!lists.LSTs[0].lstf.fHybridList());
    assert_eq!(lists.LSTs[0].level_styles.len(), 1);
    assert!(!lists.LSTs[1].lstf.fSimpleList());
    assert!(lists.LSTs[1].lstf.fHybridList());
    assert_eq!(lists.LSTs[1].level_styles.len(), 9);
    assert!(lists.LSTs[2].lstf.fSimpleList());
    assert_eq!(lists.LSTs[2].level_styles.len(), 1);
    assert_eq!(lists.LSTs[0].level_styles[0].lvlf.iStartAt, 0);
    assert_eq!(lists.LSTs[1].level_styles[0].lvlf.iStartAt, 1);
    assert_eq!(lists.LSTs[1].level_styles[8].lvlf.iStartAt, 9);
    assert_eq!(lists.LSTs[2].level_styles[0].lvlf.iStartAt, 10);
    assert_eq!(reader.stream_position(), bytes.len());
}

#[test]
fn list_header_fields() {
    let bytes = table(&[lstf(-77, 0x0102_0304, 0x01)], &[lvl(1, 0, &[], &[], "")]);
    let lists = LSTs::from_reader(&mut SubReader::new(&bytes, 0)).unwrap();
    let header = &lists.LSTs[0].lstf;
    assert_eq!(header.lsid, -77);
    assert_eq!(header.tplc, 0x0102_0304);
    assert_eq!(header.rgistd, [0x0FF0, 0x0FF1, 0x0FF2, 0x0FF3, 0x0FF4, 0x0FF5, 0x0FF6, 0x0FF7, 0x0FF8]);
    assert_eq!(header.flagfield, 0x01);
    assert_eq!(header.compat_flags, 0x5A);
}

#[test]
fn list_level_fields_blobs_and_text() {
    let bytes = table(&[lstf(1, 1, 0x01)], &[lvl(42, 0b1010_1010, &[0xA1, 0xA2, 0xA3], &[0xB1], "\u{f0b7}a")]);
    let lists = LSTs::from_reader(&mut SubReader::new(&bytes, 0)).unwrap();
    let level = &lists.LSTs[0].level_styles[0];
    assert_eq!(level.lvlf.iStartAt, 42);
    assert_eq!(level.lvlf.nfc, 0x17);
    assert_eq!(level.lvlf.jc, 2);
    assert!(level.lvlf.fLegal);
    assert!(!level.lvlf.fNoRestart);
    assert!(level.lvlf.fPrev);
    assert!(!level.lvlf.fPrevSpace);
    assert!(level.lvlf.fWord6);
    assert_eq!(level.lvlf.rgbxchNums, [1, 2, 3, 4, 5, 6, 7, 8, 9]);
    assert_eq!(level.lvlf.ixchFollow, 2);
    assert_eq!(level.lvlf.dxaSpace, -100);
    assert_eq!(level.lvlf.dxaIndent, 360);
    assert_eq!(level.lvlf.cbGrpprlPapx, 3);
    assert_eq!(level.lvlf.cbGrpprlChpx, 1);
    assert_eq!(level.lvlf.ilvlRestartLim, 0x0C);
    assert_eq!(level.lvlf.grfhic, 0x0D);
    assert_eq!(level.grpprlPapx, vec![0xA1, 0xA2, 0xA3]);
    assert_eq!(level.grpprlChpx, vec![0xB1]);
    assert_eq!(level.nubmer_text, "\u{f0b7}a");
}

#[test]
fn empty_list_table() {
    let bytes = [0u8, 0, 0xFF];
    let mut reader = SubReader::new(&bytes, 0);
    let lists = LSTs::from_reader(&mut reader).unwrap();
    assert_eq!(lists.num_LSTs, 0);
    assert!(lists.LSTs.is_empty());
    assert_eq!(reader.stream_position(), 2);
}

#[test]
fn list_table_cut_short_is_unexpected_eof() {
    let bytes = table(&[lstf(1, 1, 0x01), lstf(2, 2, 0x01)], &[lvl(1, 0, &[1], &[2], "a"), lvl(2, 0, &[], &[], "bc")]);
    for len in 0..bytes.len() {
        assert_eq!(
            LSTs::from_reader(&mut SubReader::new(&bytes[..len], 0)).err(),
            Some(DecodeError::UnexpectedEof),
            "{}",
            len
        );
    }
    assert!(LSTs::from_reader(&mut SubReader::new(&bytes, 0)).is_ok());
    let missing_levels = table(&[lstf(1, 1, 0x00)], &vec![lvl(1, 0, &[], &[], ""); 8]);
    assert_eq!(LSTs::from_reader(&mut SubReader::new(&missing_levels, 0)).err(), Some(DecodeError::UnexpectedEof));
}

#[test]
fn list_level_with_bad_text_is_invalid_text() {
    let mut bytes = table(&[lstf(1, 1, 0x01)], &[lvl(1, 0, &[], &[], "a")]);
    let n = bytes.len();
    bytes[n - 2] = 0xD8;
    bytes[n - 1] = 0x01;
    assert_eq!(LSTs::from_reader(&mut SubReader::new(&bytes, 0)).err(), Some(DecodeError::InvalidText));
}
