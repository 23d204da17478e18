use doc_anal::{DecodeError, FromReader, SubReader, SHSHI, STD};

fn style_record(words: [u16; 3], bch_upe: u16, flags: u16, link: u16, rsid: i32, html: u16, name: &str) -> Vec<u8> {
    let mut r = Vec::new();
    for w in words {
        r.extend_from_slice(&w.to_le_bytes());
    }
    r.extend_from_slice(&bch_upe.to_le_bytes());
    r.extend_from_slice(&flags.to_le_bytes());
    r.extend_from_slice(&link.to_le_bytes());
    r.extend_from_slice(&rsid.to_le_bytes());
    r.extend_from_slice(&html.to_le_bytes());
    let units: Vec<u16> = name.encode_utf16().collect();
    r.push(units.len() as u8);
    for u in units {
        r.extend_from_slice(&u.to_be_bytes());
    }
    r.extend_from_slice(&[0, 0]);
    r
}

fn plain_style(sti: u16, name: &str) -> Vec<u8> {
    style_record([sti, 0, 0], 0, 0, 0, 0, 0, name)
}

fn sheet(cstd: u16, header_len: u16, slots: &[Vec<u8>]) -> Vec<u8> {
    let mut s = Vec::new();
    s.extend_from_slice(&header_len.to_le_bytes());
    let mut header = Vec::new();
    for w in [cstd, 18u16, 0x0080, 0x5B, 0x0F, 1] {
        header.extend_from_slice(&w.to_le_bytes());
    }
    header.resize(header_len as usize, 0xAA);
    s.extend_from_slice(&header);
    for slot in slots {
        s.extend_from_slice(&(slot.len() as u16).to_le_bytes());
        s.extend_from_slice(slot);
    }
    s
}

#[test]
fn style_fields_come_from_their_masks() {
    let record = style_record([0xA00B, 0x3ABC, 0x1DEF], 0x1234, 0xFFE0, 0x5678, -3, 0xFFFF, "Heading 1,H1");
    let mut reader = SubReader::new(&record, 0);
    let style = STD::from_reader(&mut reader).unwrap();
    assert_eq!(style.sti, 0x000B);
    assert!(style.fScratch);
    assert!(!style.fInvalHeight);
    assert!(style.fHasUpe);
    assert!(!style.fMassCopy);
    assert_eq!(style.stk, 0x3000);
    assert_eq!(style.istdBase, 0x0ABC);
    assert_eq!(style.cupx, 0x1000);
    assert_eq!(style.istdNext, 0x0DEF);
    assert_eq!(style.bchUpe, 0x1234);
    assert!(style.fAutoRedef && style.fHidden && style.f97LidsSet && style.fCopyLang);
    assert!(style.fPersonalCompose && style.fPersonalReply && style.fPersonal);
    assert!(style.fNoHtmlExport && style.fSemiHidden && style.fLocked && style.fInternalUse);
    assert_eq!(style.unused_bits, 0);
    assert_eq!(style.istdLink, 0x0678);
    assert_eq!(style.fSpare, 0x5000);
    assert_eq!(style.rsid, -3);
    assert_eq!(style.iftcHtml, 7);
    assert_eq!(style.unused, 0);
    assert_eq!(style.xstzName, "Heading 1,H1");
    assert_eq!(reader.stream_position(), record.len());
}

#[test]
fn style_flags_are_single_bits() {
    let record = style_record([0, 0, 0], 0, 0x0020, 0, 0, 0, "");
    let style = STD::from_reader(&mut SubReader::new(&record, 0)).unwrap();
    assert!(style.fInternalUse);
    assert!(!style.fLocked && !style.fSemiHidden && !style.fAutoRedef);
    assert_eq!(style.xstzName, "");
    let record = style_record([0x4000, 0, 0], 0, 0x001F, 0, 0, 0, "x");
    let style = STD::from_reader(&mut SubReader::new(&record, 0)).unwrap();
    assert!(style.fInvalHeight && !style.fScratch);
    assert!(!style.fInternalUse);
}

#[test]
fn style_name_is_utf16_with_the_high_byte_first() {
    let record = plain_style(1, "Ünï\u{1F600}");
    let style = STD::from_reader(&mut SubReader::new(&record, 0)).unwrap();
    assert_eq!(style.xstzName, "Ünï\u{1F600}");
    let mut swapped = plain_style(1, "");
    swapped[18] = 1;
    swapped.truncate(19);
    swapped.extend_from_slice(&[0x41, 0x00, 0, 0]);
    let style = STD::from_reader(&mut SubReader::new(&swapped, 0)).unwrap();
    assert_eq!(style.xstzName, "\u{4100}");
}

#[test]
fn style_with_an_unpaired_surrogate_is_invalid_text() {
    let mut record = plain_style(1, "A");
    record[19] = 0xD8;
    record[20] = 0x00;
    assert_eq!(STD::from_reader(&mut SubReader::new(&record, 0)).err(), Some(DecodeError::InvalidText));
    record[19] = 0xDC;
    assert_eq!(STD::from_reader(&mut SubReader::new(&record, 0)).err(), Some(DecodeError::InvalidText));
}

#[test]
fn style_cut_short_is_unexpected_eof() {
    let record = plain_style(1, "Normal");
    for len in 0..record.len() {
        let cut = &record[..len];
        assert_eq!(STD::from_reader(&mut SubReader::new(cut, 0)).err(), Some(DecodeError::UnexpectedEof), "{}", len);
    }
    assert!(STD::from_reader(&mut SubReader::new(&record, 0)).is_ok());
}

#[test]
fn empty_style_slot_has_no_style_and_takes_two_bytes() {
    let bytes = sheet(1, 12, &[vec![]]);
    let mut reader = SubReader::new(&bytes, 0);
    let decoded = SHSHI::from_reader(&mut reader).unwrap();
    assert_eq!(decoded.cstd, 1);
    assert_eq!(decoded.styles.len(), 1);
    assert!(decoded.styles[0].is_none());
    assert_eq!(reader.stream_position(), 2 + 12 + 2);
    assert_eq!(reader.stream_position(), bytes.len());
}

#[test]
fn style_slots_keep_their_index() {
    let slots = vec![plain_style(0, "Normal"), vec![], vec![], plain_style(3, "Heading 3"), vec![]];
    let bytes = sheet(5, 12, &slots);
    let mut reader = SubReader::new(&bytes, 0);
    let decoded = SHSHI::from_reader(&mut reader).unwrap();
    assert_eq!(decoded.styles.len(), 5);
    assert_eq!(decoded.styles.len(), decoded.cstd as usize);
    assert_eq!(decoded.styles[0].as_ref().unwrap().xstzName, "Normal");
    assert!(decoded.styles[1].is_none());
    assert!(decoded.styles[2].is_none());
    assert_eq!(decoded.styles[3].as_ref().unwrap().xstzName, "Heading 3");
    assert_eq!(decoded.styles[3].as_ref().unwrap().sti, 3);
    assert!(decoded.styles[4].is_none());
    assert_eq!(reader.stream_position(), bytes.len());
}

#[test]
fn style_sheet_header_fields() {
    let bytes = sheet(0, 20, &[]);
    let decoded = SHSHI::from_reader(&mut SubReader::new(&bytes, 0)).unwrap();
    assert_eq!(decoded.cstd, 0);
    assert_eq!(decoded.cbSTDBaseInFile, 18);
    assert!(decoded.fStdStylenamesWritten);
    assert_eq!(decoded.stiMaxWhenSaved, 0x5B);
    assert_eq!(decoded.istdMaxFixedWhenSaved, 0x0F);
    assert_eq!(decoded.nVerBuiltInNamesWhenSaved, 1);
    assert!(decoded.styles.is_empty());
}

#[test]
fn style_record_is_decoded_on_its_own() {
    let mut padded = plain_style(7, "Body");
    padded.extend_from_slice(&[0xDE, 0xAD, 0xBE, 0xEF, 0x00]);
    let slots = vec![padded, plain_style(8, "Next")];
    let bytes = sheet(2, 12, &slots);
    let decoded = SHSHI::from_reader(&mut SubReader::new(&bytes, 0)).unwrap();
    assert_eq!(decoded.styles[0].as_ref().unwrap().xstzName, "Body");
    assert_eq!(decoded.styles[1].as_ref().unwrap().xstzName, "Next");

    let mut cut = plain_style(7, "Body");
    cut.pop();
    let bytes = sheet(2, 12, &[cut, plain_style(8, "Next")]);
    assert_eq!(SHSHI::from_reader(&mut SubReader::new(&bytes, 0)).err(), Some(DecodeError::UnexpectedEof));
}

#[test]
fn style_sheet_cut_short_is_unexpected_eof() {
    let bytes = sheet(2, 12, &[plain_style(0, "a"), plain_style(1, "b")]);
    for len in 0..bytes.len() {
        assert_eq!(
            SHSHI::from_reader(&mut SubReader::new(&bytes[..len], 0)).err(),
            Some(DecodeError::UnexpectedEof),
            "{}",
            len
        );
    }
    let short_header = sheet(0, 11, &[]);
    assert_eq!(SHSHI::from_reader(&mut SubReader::new(&short_header, 0)).err(), Some(DecodeError::UnexpectedEof));
    let missing_slot = sheet(3, 12, &[plain_style(0, "a")]);
    assert_eq!(SHSHI::from_reader(&mut SubReader::new(&missing_slot, 0)).err(), Some(DecodeError::UnexpectedEof));
}

#[test]
fn style_sheet_with_a_bad_name_is_invalid_text() {
    let mut bad = plain_style(1, "A");
    bad[19] = 0xDF;
    let bytes = sheet(2, 12, &[plain_style(0, "ok"), bad]);
    assert_eq!(SHSHI::from_reader(&mut SubReader::new(&bytes, 0)).err(), Some(DecodeError::InvalidText));
}
