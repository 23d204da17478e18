use doc_anal::fib::FIB_SIZE;
use doc_anal::text::{bool_string, bytes_string, decimal_string, fcpgd_string, flags_string, unsigned_decimal_string};
use doc_anal::to_structure::lookup_description;
use doc_anal::{Bytes, Fib, FromReader, Structure, SubReader, ToStructure, FCPGDOLD, PCD, PLCF, SHSHI, STD};

#[test]
fn numbers_are_shown_in_decimal() {
    assert_eq!(decimal_string(0), "0");
    assert_eq!(decimal_string(7), "7");
    assert_eq!(decimal_string(10), "10");
    assert_eq!(decimal_string(-1), "-1");
    assert_eq!(decimal_string(1234567890), "1234567890");
    assert_eq!(decimal_string(i64::MAX), "9223372036854775807");
    assert_eq!(decimal_string(i64::MIN), "-9223372036854775808");
    assert_eq!(decimal_string(-100), "-100");
    assert_eq!(unsigned_decimal_string(u64::MAX), "18446744073709551615");
    assert_eq!(unsigned_decimal_string(0), "0");
    for n in [-1000i64, -11, 9, 99, 100, 101, 65535, 4294967295] {
        assert_eq!(decimal_string(n), n.to_string());
    }
}

#[test]
fn raw_bytes_are_shown_in_upper_case_hexadecimal() {
    assert_eq!(bytes_string(&Bytes::from_u16(0x6A62)), "0x626A");
    assert_eq!(bytes_string(&Bytes::from_u32(0x0A1B_2C3D)), "0x3D2C1B0A");
    assert_eq!(bytes_string(&Bytes::from_i32(-2)), "0xFEFFFFFF");
    assert_eq!(bytes_string(&Bytes::from_i32(i32::MIN)), "0x00000080");
    assert_eq!(bytes_string(&Bytes::new(vec![])), "0x");
    assert_eq!(bytes_string(&Bytes::new(vec![0x00, 0x9F, 0xA0, 0xFF])), "0x009FA0FF");
    assert_eq!(Bytes::from_u16(0x0102).bytes, vec![2, 1]);
    assert_eq!(Bytes::from_u32(1).bytes, vec![1, 0, 0, 0]);
    assert_eq!(Bytes::from_i32(-1).bytes, vec![255; 4]);
}

#[test]
fn other_values_as_text() {
    assert_eq!(bool_string(true), "true");
    assert_eq!(bool_string(false), "false");
    assert_eq!(flags_string(&[true, false, true]), "[true,false,true]");
    let v = FCPGDOLD { fcPgd: -1, lcbPgd: 2, fcBkd: 30, lcbBkd: 4_000_000_000 };
    assert_eq!(fcpgd_string(&v), "{\"fcPgd\":-1,\"lcbPgd\":2,\"fcBkd\":30,\"lcbBkd\":4000000000}");
}

fn pcd() -> PCD {
    PCD { fNoParaLast: true, rest_of_bitfield: [false, true, false], fn_val: 12, fc: -5, prm: 65535 }
}

#[test]
fn piece_descriptor_as_fields() {
    let items = pcd().structure_items();
    let shown: Vec<(&str, &str)> = items.iter().map(|i| (i.name.as_str(), i.value.as_str())).collect();
    assert_eq!(
        shown,
        vec![
            ("fNoParaLast", "true"),
            ("rest_of_bitfield", "[false,true,false]"),
            ("fn_val", "12"),
            ("fc", "-5"),
            ("prm", "65535"),
        ]
    );
    assert!(items.iter().all(|i| i.description.is_none()));
    assert!(PCD::descriptions().is_empty());
    assert!(pcd().substructures().is_none());
}

#[test]
fn piece_table_shows_its_descriptors_by_number() {
    let table = PLCF { rgfc: vec![0, 1, 2], rgstruct: vec![pcd(), pcd()] };
    assert!(table.structure_items().is_empty());
    let below = table.substructures().unwrap();
    assert_eq!(below.len(), 2);
    assert_eq!(below[0].name, "PCD 0");
    assert_eq!(below[1].name, "PCD 1");
    assert_eq!(below[1].structure, pcd().structure_items());
    assert!(below[1].substructs.is_none());
    let tree = Structure::from("Piece Tables", &table);
    assert_eq!(tree.name, "Piece Tables");
    assert_eq!(tree.substructs.unwrap().len(), 2);
    let many = PLCF { rgfc: vec![0; 13], rgstruct: (0..12).map(|_| pcd()).collect() };
    assert_eq!(many.substructures().unwrap()[11].name, "PCD 11");
}

fn style(name: &str) -> STD {
    let mut r = vec![0u8; 18];
    r[0..2].copy_from_slice(&0x8005u16.to_le_bytes());
    r[12..16].copy_from_slice(&(-9i32).to_le_bytes());
    let units: Vec<u16> = name.encode_utf16().collect();
    r.push(units.len() as u8);
    for u in units {
        r.extend_from_slice(&u.to_be_bytes());
    }
    r.extend_from_slice(&[0, 0]);
    STD::from_reader(&mut SubReader::new(&r, 0)).unwrap()
}

#[test]
fn style_as_fields() {
    let items = style("Heading \"1\"").structure_items();
    assert_eq!(items.len(), 28);
    assert_eq!((items[0].name.as_str(), items[0].value.as_str()), ("sti", "5"));
    assert_eq!(items[0].description.as_deref(), Some("The style identifier"));
    assert_eq!((items[1].name.as_str(), items[1].value.as_str()), ("fScratch", "true"));
    assert_eq!(items[9].name, "bchUpe");
    assert_eq!(items[9].description.as_deref(), Some("Offset ot end of upx's, start of upe's"));
    assert_eq!(items[10].name, "fAutoRedef");
    assert_eq!(items[10].description, None);
    assert_eq!((items[24].name.as_str(), items[24].value.as_str()), ("rsid", "-9"));
    assert_eq!((items[27].name.as_str(), items[27].value.as_str()), ("xstzName", "Heading \"1\""));
    assert_eq!(STD::descriptions().len(), 10);
}

#[test]
fn style_sheet_shows_present_styles_by_name() {
    let sheet = SHSHI {
        cstd: 4,
        cbSTDBaseInFile: 18,
        fStdStylenamesWritten: true,
        stiMaxWhenSaved: 91,
        istdMaxFixedWhenSaved: 15,
        nVerBuiltInNamesWhenSaved: 0,
        styles: vec![None, Some(style("A")), None, Some(style("B"))],
    };
    let items = sheet.structure_items();
    let shown: Vec<(&str, &str)> = items.iter().map(|i| (i.name.as_str(), i.value.as_str())).collect();
    assert_eq!(
        shown,
        vec![
            ("cstd", "4"),
            ("cbSTDBaseInFile", "18"),
            ("fStdStylenamesWritten", "true"),
            ("stiMaxWhenSaved", "91"),
            ("istdMaxFixedWhenSaved", "15"),
            ("nVerBuiltInNamesWhenSaved", "0"),
        ]
    );
    assert_eq!(items[0].description.as_deref(), Some("The Number of styles in the stylesheet"));
    let table = SHSHI::descriptions();
    assert_eq!(table.len(), 10);
    assert_eq!(table[0], ("cbStshi".to_string(), "Count of bytes of this SHSHI allocation".to_string()));
    let below = sheet.substructures().unwrap();
    assert_eq!(below.len(), 2);
    assert_eq!(below[0].name, "A");
    assert_eq!(below[1].name, "B");
    assert_eq!(below[1].structure, style("B").structure_items());
}

#[test]
fn root_descriptor_as_fields() {
    let mut b = vec![0u8; FIB_SIZE];
    b[0..2].copy_from_slice(&[0xEC, 0xA5]);
    b[2..4].copy_from_slice(&193u16.to_le_bytes());
    b[0x0A..0x0C].copy_from_slice(&0x0204u16.to_le_bytes());
    b[0x13] = 0x40;
    b[0xA2..0xA6].copy_from_slice(&(-64i32).to_le_bytes());
    b[0xA6..0xAA].copy_from_slice(&4_000_000_000u32.to_le_bytes());
    let fib = Fib::from_reader(&mut SubReader::new(&b, 0)).unwrap();
    let items = fib.structure_items();
    assert_eq!(items.len(), 366);
    let find = |name: &str| items.iter().find(|i| i.name == name).unwrap();
    assert_eq!(items[0].name, "wIdent");
    assert_eq!(items[0].value, "0xECA5");
    assert_eq!(items[0].description.as_deref(), Some("Magic Number"));
    assert_eq!(find("nFib").value, "193");
    assert_eq!(
        find("nFib").description.as_deref(),
        Some("FIB version written. Should be >= 101 for post Word 6.0 windows files")
    );
    assert_eq!(find("fComplex").value, "true");
    assert_eq!(find("fWhichTblStm").value, "true");
    assert_eq!(find("fDot").value, "false");
    assert_eq!(find("fSpare0").value, "[false,true,false]");
    assert_eq!(find("fSpare0").description, None);
    assert_eq!(find("fcStshf").value, "-64");
    assert_eq!(find("fcStshf").description.as_deref(), Some("Offset of the STSH in the table stream"));
    assert_eq!(find("lcbStshf").value, "4000000000");
    assert_eq!(find("lcbPlcffndRef").description, None);
    assert_eq!(find("Clw").description, None);
    assert_eq!(find("lProductCreated").value, "0x00000000");
    assert_eq!(find("fcpgdMother").value, "{\"fcPgd\":0,\"lcbPgd\":0,\"fcBkd\":0,\"lcbBkd\":0}");
    assert_eq!(items[365].name, "cQuickSavesNew");
    let names: Vec<&str> = items.iter().map(|i| i.name.as_str()).collect();
    let mut sorted = names.clone();
    sorted.sort();
    sorted.dedup();
    assert_eq!(sorted.len(), names.len());
    assert!(fib.substructures().is_none());
}

#[test]
fn descriptions_are_looked_up_by_name() {
    let table = Fib::descriptions();
    assert!(table.iter().all(|(_, d)| !d.is_empty()));
    assert_eq!(lookup_description(&table, &"Lid".to_string()).as_deref(), Some("language Stamp"));
    assert_eq!(lookup_description(&table, &"clw".to_string()).is_some(), true);
    assert_eq!(lookup_description(&table, &"Clw".to_string()), None);
    assert_eq!(lookup_description(&table, &"".to_string()), None);
    let twice = vec![("a".to_string(), "first".to_string()), ("a".to_string(), "second".to_string())];
    assert_eq!(lookup_description(&twice, &"a".to_string()).as_deref(), Some("second"));
}
