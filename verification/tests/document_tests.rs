use doc_anal::fib::FIB_SIZE;
use doc_anal::{
    decode_list_tables, decode_piece_table, decode_stylesheet, DecodeError, DocumentSummaryInfoStream,
    Fib, FromReader, PhysicalStructure, Structure, StructureItem, SubReader, SummaryInformation,
    ToStructure, WordDocument,
};

fn fib_with(fields: &[(usize, i64, usize)]) -> Fib {
    let mut b = vec![0u8; FIB_SIZE];
    b[2..4].copy_from_slice(&193u16.to_le_bytes());
    for (at, value, width) in fields {
        b[*at..*at + *width].copy_from_slice(&value.to_le_bytes()[..*width]);
    }
    Fib::from_reader(&mut SubReader::new(&b, 0)).unwrap()
}

fn style(name: &str) -> Vec<u8> {
    let mut r = vec![0u8; 18];
    let units: Vec<u16> = name.encode_utf16().collect();
    r.push(units.len() as u8);
    for u in units {
        r.extend_from_slice(&u.to_be_bytes());
    }
    r.extend_from_slice(&[0, 0]);
    r
}

fn sheet(names: &[Option<&str>]) -> Vec<u8> {
    let mut s = 12u16.to_le_bytes().to_vec();
    s.extend_from_slice(&(names.len() as u16).to_le_bytes());
    s.extend_from_slice(&[0; 10]);
    for n in names {
        match n {
            Some(n) => {
                let r = style(n);
                s.extend_from_slice(&(r.len() as u16).to_le_bytes());
                s.extend_from_slice(&r);
            },
            None => s.extend_from_slice(&[0, 0]),
        }
    }
    s
}

fn pieces(count: usize) -> Vec<u8> {
    let mut block = Vec::new();
    for i in 0..=count {
        block.extend_from_slice(&((i * 10) as i32).to_le_bytes());
    }
    for i in 0..count {
        block.extend_from_slice(&[0x80, i as u8, 0, 6, 0, 0, 0, 0]);
    }
    let mut b = vec![2u8];
    b.extend_from_slice(&(block.len() as u32).to_le_bytes());
    b.extend_from_slice(&block);
    b
}

fn simple_lists(count: usize) -> Vec<u8> {
    let mut b = (count as u16).to_le_bytes().to_vec();
    for i in 0..count {
        let mut h = vec![0u8; 28];
        h[0] = i as u8 + 1;
        h[26] = 1;
        b.extend_from_slice(&h);
    }
    for _ in 0..count {
        b.extend_from_slice(&[0u8; 28]);
        b.extend_from_slice(&[0, 0]);
    }
    b
}

fn empty_summaries() -> (DocumentSummaryInfoStream, SummaryInformation) {
    let sets = vec![doc_anal::PropertySet { cb: 0, cProperties: 0, rgProperties: vec![], properties: vec![] }];
    (
        DocumentSummaryInfoStream::from_property_sets(&sets).unwrap(),
        SummaryInformation::from_property_sets(&sets).unwrap(),
    )
}

struct Layout {
    table: Vec<u8>,
    fields: Vec<(usize, i64, usize)>,
}

fn layout() -> Layout {
    let mut table = vec![0xCCu8; 16];
    let stsh = sheet(&[Some("Normal"), None, Some("Title")]);
    let clx = pieces(2);
    let lists = simple_lists(2);
    let fc_stsh = table.len();
    table.extend_from_slice(&stsh);
    let fc_clx = table.len();
    table.extend_from_slice(&clx);
    let fc_lst = table.len();
    table.extend_from_slice(&lists);
    let fc_lfo = table.len();
    table.extend_from_slice(&[0xDD; 8]);
    let fields = vec![
        (0xA2, fc_stsh as i64, 4),
        (0xA6, stsh.len() as i64, 4),
        (0x1A2, fc_clx as i64, 4),
        (0x1A6, clx.len() as i64, 4),
        (0x2E2, fc_lst as i64, 4),
        (0x2E6, 2 + 28 * 2, 4),
        (0x2EA, fc_lfo as i64, 4),
        (0x2EE, 8, 4),
    ];
    Layout { table, fields }
}

#[test]
fn document_is_assembled_from_what_the_directory_locates() {
    let l = layout();
    let fib = fib_with(&l.fields);
    let (doc_summary, summary) = empty_summaries();
    let document = WordDocument::assemble(fib, &l.table, doc_summary, summary).unwrap();
    assert_eq!(document.table_stream_name, "0Table");
    let sheet = document.stylesheet.as_ref().unwrap();
    assert_eq!(sheet.cstd, 3);
    assert_eq!(sheet.styles[2].as_ref().unwrap().xstzName, "Title");
    let piece_table = document.piece_table.as_ref().unwrap();
    assert_eq!(piece_table.rgfc, vec![0, 10, 20]);
    assert_eq!(piece_table.rgstruct[1].fn_val, 1);
    assert_eq!(document.list_tables.num_LSTs, 2);
    assert_eq!(document.list_tables.LSTs[1].lstf.lsid, 2);
    assert_eq!(document.list_tables.LSTs[1].level_styles.len(), 1);
    assert_eq!(document.summary_information.title, None);
}

#[test]
fn list_table_is_read_up_to_the_overrides_that_follow_it() {
    let l = layout();
    let fib = fib_with(&l.fields);
    assert!((fib.lcbPlcfLst as i32) < fib.fcPlfLfo - fib.fcPlcfLst);
    let lists = decode_list_tables(&fib, &l.table).unwrap();
    assert_eq!(lists.LSTs.len(), 2);
    let mut fields = l.fields.clone();
    fields[6].1 = fields[4].1 + 2 + 28 * 2;
    let declared_only = fib_with(&fields);
    assert_eq!(decode_list_tables(&declared_only, &l.table).err(), Some(DecodeError::UnexpectedEof));
    fields[6].1 = fields[4].1 - 1;
    assert_eq!(decode_list_tables(&fib_with(&fields), &l.table).err(), Some(DecodeError::MalformedLayout));
    fields[6].1 = l.table.len() as i64 + 1;
    assert_eq!(decode_list_tables(&fib_with(&fields), &l.table).err(), Some(DecodeError::MalformedLayout));
}

#[test]
fn structures_of_zero_bytes_are_absent() {
    let fib = fib_with(&[]);
    let (doc_summary, summary) = empty_summaries();
    let document = WordDocument::assemble(fib, &[], doc_summary, summary).unwrap();
    assert!(document.stylesheet.is_none());
    assert!(document.piece_table.is_none());
    assert_eq!(document.list_tables.num_LSTs, 0);
    assert!(document.list_tables.LSTs.is_empty());
    let only_places = fib_with(&[(0xA2, 5000, 4), (0x1A2, 7000, 4), (0x2E2, 9000, 4)]);
    assert_eq!(decode_stylesheet(&only_places, &[1, 2, 3]), Ok(None));
    assert_eq!(decode_piece_table(&only_places, &[1, 2, 3]), Ok(None));
    assert!(decode_list_tables(&only_places, &[1, 2, 3]).unwrap().LSTs.is_empty());
}

#[test]
fn assembly_failure_names_the_directory_entry() {
    let l = layout();
    let (doc_summary, summary) = empty_summaries();
    let mut fields = l.fields.clone();
    fields[1].1 += 100_000;
    let failure = WordDocument::assemble(fib_with(&fields), &l.table, doc_summary, summary).err().unwrap();
    assert_eq!(failure.error, DecodeError::MalformedLayout);
    assert_eq!(failure.structure, "STSH structure");
    assert_eq!(failure.offset, l.fields[0].1 as i32);
    assert_eq!(failure.length, (l.fields[1].1 + 100_000) as u32);

    let mut table = l.table.clone();
    table[l.fields[2].1 as usize] = 1;
    let (doc_summary, summary) = empty_summaries();
    let failure = WordDocument::assemble(fib_with(&l.fields), &table, doc_summary, summary).err().unwrap();
    assert_eq!(failure.error, DecodeError::UnsupportedVariant);
    assert_eq!(failure.structure, "Complex File Information");
    assert_eq!(failure.offset, l.fields[2].1 as i32);

    let mut fields = l.fields.clone();
    fields.push((0x102, 10, 4));
    fields.push((0x106, 1_000_000, 4));
    let (doc_summary, summary) = empty_summaries();
    let failure = WordDocument::assemble(fib_with(&fields), &l.table, doc_summary, summary).err().unwrap();
    assert_eq!(failure.error, DecodeError::MalformedLayout);
    assert_eq!(failure.structure, "paragraph property bin table PLC");
    assert_eq!((failure.offset, failure.length), (10, 1_000_000));

    let mut fields = l.fields.clone();
    fields[6].1 = 1;
    let (doc_summary, summary) = empty_summaries();
    let failure = WordDocument::assemble(fib_with(&fields), &l.table, doc_summary, summary).err().unwrap();
    assert_eq!(failure.error, DecodeError::MalformedLayout);
    assert_eq!(failure.structure, "list format intformation table");
    assert_eq!((failure.offset, failure.length), (l.fields[4].1 as i32, 2 + 28 * 2));
}

#[test]
fn structures_fail_each_on_its_own() {
    let l = layout();
    let mut table = l.table.clone();
    table[l.fields[2].1 as usize] = 1;
    let mut fields = l.fields.clone();
    fields[6].1 = l.table.len() as i64 + 1;
    let outcomes = doc_anal::decode_structures(&fib_with(&fields), &table);
    assert_eq!(outcomes.piece_table.err(), Some(DecodeError::UnsupportedVariant));
    assert_eq!(outcomes.stylesheet.unwrap().unwrap().cstd, 3);
    assert_eq!(outcomes.list_tables.err(), Some(DecodeError::MalformedLayout));
    let outcomes = doc_anal::decode_structures(&fib_with(&l.fields), &l.table);
    assert!(outcomes.piece_table.is_ok() && outcomes.stylesheet.is_ok() && outcomes.list_tables.is_ok());
}

#[test]
fn style_sheet_outcomes() {
    let l = layout();
    let mut old = l.fields.clone();
    old.push((2, 66, 2));
    assert_eq!(decode_stylesheet(&fib_with(&old), &l.table).err(), Some(DecodeError::UnsupportedVariant));
    old.pop();
    old.push((2, 67, 2));
    assert!(decode_stylesheet(&fib_with(&old), &l.table).unwrap().is_some());

    let mut longer = l.fields.clone();
    longer[1].1 += 1;
    assert_eq!(decode_stylesheet(&fib_with(&longer), &l.table).err(), Some(DecodeError::MalformedLayout));
    let mut shorter = l.fields.clone();
    shorter[1].1 -= 1;
    assert_eq!(decode_stylesheet(&fib_with(&shorter), &l.table).err(), Some(DecodeError::UnexpectedEof));
    let mut negative = l.fields.clone();
    negative[0].1 = -4;
    assert_eq!(decode_stylesheet(&fib_with(&negative), &l.table).err(), Some(DecodeError::MalformedLayout));
}

#[test]
fn piece_table_outcomes() {
    let l = layout();
    let mut negative = l.fields.clone();
    negative[3].1 = -1;
    assert_eq!(decode_piece_table(&fib_with(&negative), &l.table).err(), Some(DecodeError::MalformedLayout));
    let mut ragged = l.fields.clone();
    ragged[3].1 -= 1;
    assert_eq!(decode_piece_table(&fib_with(&ragged), &l.table).err(), Some(DecodeError::UnexpectedEof));
    let mut table = l.table.clone();
    let at = l.fields[2].1 as usize;
    table[at + 1] -= 1;
    assert_eq!(decode_piece_table(&fib_with(&l.fields), &table).err(), Some(DecodeError::MalformedPlex));
}

fn assembled() -> (WordDocument, Vec<u8>, Vec<u8>) {
    let l = layout();
    let mut fields = l.fields.clone();
    fields.push((0x18, 4, 4));
    fields.push((0x4C, 6, 4));
    let mut word = vec![0u8; FIB_SIZE];
    word[2..4].copy_from_slice(&193u16.to_le_bytes());
    for (at, value, width) in &fields {
        word[*at..*at + *width].copy_from_slice(&value.to_le_bytes()[..*width]);
    }
    let fib = Fib::from_reader(&mut SubReader::new(&word, 0)).unwrap();
    let (doc_summary, summary) = empty_summaries();
    (WordDocument::assemble(fib, &l.table, doc_summary, summary).unwrap(), word, l.table)
}

#[test]
fn physical_structures_are_ranges_of_the_streams() {
    let (document, word, table) = assembled();
    let ranges = document.get_physical_sructures(&word, &table).unwrap();
    assert_eq!(ranges.len(), 9);
    assert_eq!(ranges[0].stream_name, "WordDocument");
    assert_eq!(ranges[0].structure_name.as_deref(), Some("Fib 1997 Header"));
    assert_eq!((ranges[0].start_index, ranges[0].end_index), (0, 72));
    assert_eq!(ranges[0].bytes, word[0..72].to_vec());
    assert_eq!((ranges[1].start_index, ranges[1].end_index), (72, 402));
    assert_eq!(ranges[2].structure_name.as_deref(), Some("Fib 1997 cont."));
    assert_eq!(ranges[2].bytes, word[402..898].to_vec());
    assert_eq!(ranges[3].structure_name.as_deref(), Some("Fib 2000 ext."));
    assert_eq!(ranges[4].structure_name.as_deref(), Some("Fib 2002 ext."));
    assert_eq!(ranges[5].structure_name.as_deref(), Some("Fib 2003 ext."));
    assert_eq!(ranges[5].bytes, word[1242..1258].to_vec());
    assert_eq!(ranges[5].description.as_deref(), Some("Word 2003 definitions. Variables fcHplxsdr - cQuickSavesNew"));
    assert_eq!(ranges[6].stream_name, "Table Stream");
    assert_eq!(ranges[6].structure_name, None);
    assert_eq!((ranges[6].start_index, ranges[6].end_index), (4, 24));
    assert_eq!(ranges[6].bytes, word[4..24].to_vec());
    let start = document.fib.fcStshf as usize;
    let end = start + document.fib.lcbStshf as usize;
    assert_eq!(ranges[7].bytes, table[start..end].to_vec());
    assert_eq!(ranges[7].description.as_deref(), Some("STSHI(Stylesheet) structure"));
    assert_eq!(ranges[8].stream_name, "WordDocument");
    assert_eq!(ranges[8].bytes, Vec::<u8>::new());
    assert_eq!(ranges[8].description.as_deref(), Some("Footnote Reference Structure"));
}

#[test]
fn physical_structure_ends_where_its_stream_ends() {
    let bytes = [1u8, 2, 3, 4, 5];
    let reader = SubReader::new(&bytes, 0);
    let all = PhysicalStructure::from_reader_range(&reader, 1, 4, "s");
    assert_eq!(all.bytes, vec![2, 3, 4]);
    assert_eq!((all.start_index, all.end_index), (1, 4));
    assert_eq!(all.stream_name, "s");
    assert_eq!(all.structure_name, None);
    assert_eq!(all.description, None);
    assert_eq!(PhysicalStructure::from_reader_range(&reader, 3, 50, "s").bytes, vec![4, 5]);
    assert_eq!(PhysicalStructure::from_reader_range(&reader, 9, u64::MAX, "s").bytes, Vec::<u8>::new());
    assert_eq!(PhysicalStructure::from_reader_range(&reader, 2, 2, "s").bytes, Vec::<u8>::new());
    let from_two = SubReader::new(&bytes, 2);
    assert_eq!(PhysicalStructure::from_reader_range(&from_two, 1, 2, "s").bytes, vec![4]);
    let named = all.structure_name("n").description("d");
    assert_eq!(named.structure_name.as_deref(), Some("n"));
    assert_eq!(named.description.as_deref(), Some("d"));
    assert_eq!(named.bytes, vec![2, 3, 4]);
}

#[test]
fn physical_structures_need_ranges() {
    let (mut document, word, table) = assembled();
    assert_eq!(document.get_physical_sructures(&word[..0xB1], &table).err(), Some(DecodeError::UnexpectedEof));
    assert!(document.get_physical_sructures(&word[..0xB2], &table).is_ok());
    let mut negative = word.clone();
    negative[0xAA..0xAE].copy_from_slice(&(-1i32).to_le_bytes());
    assert_eq!(document.get_physical_sructures(&negative, &table).err(), Some(DecodeError::MalformedLayout));
    document.fib.ccpText = 0;
    assert_eq!(document.get_physical_sructures(&word, &table).err(), Some(DecodeError::MalformedLayout));
    document.fib.ccpText = 1;
    document.fib.fcMin = -1;
    assert_eq!(document.get_physical_sructures(&word, &table).err(), Some(DecodeError::MalformedLayout));
    document.fib.fcMin = 0;
    document.fib.lcbStshf = u32::MAX;
    assert_eq!(document.get_physical_sructures(&word, &table).err(), Some(DecodeError::MalformedLayout));
}

#[test]
fn documents_are_compared_range_by_range() {
    let (document, word, table) = assembled();
    let mut other_word = word.clone();
    other_word[3] ^= 0xF0;
    other_word[100] ^= 0x01;
    let a = document.get_physical_sructures(&word, &table).unwrap();
    let b = document.get_physical_sructures(&other_word, &table).unwrap();
    let compared = WordDocument::compare_to_physical(&a, &b);
    assert_eq!(compared.len(), 9);
    assert_eq!(compared[0].difference_indices, vec![(6, 7)]);
    assert_eq!(compared[1].difference_indices, vec![(2 * (100 - 72) + 1, 2 * (100 - 72) + 2)]);
    assert!(compared[2].difference_indices.is_empty());
    assert_eq!(compared[0].ref_structure.bytes, a[0].bytes);
    assert_eq!(compared[0].comp_structure.bytes, b[0].bytes);
    let same = WordDocument::compare_to_physical(&a, &a);
    assert!(same.iter().all(|c| c.difference_indices.is_empty()));
    let two = b[..2].to_vec_of();
    let fewer = WordDocument::compare_to_physical(&a, &two);
    assert_eq!(fewer.len(), 2);
}

trait ToVecOf {
    fn to_vec_of(&self) -> Vec<PhysicalStructure>;
}

impl ToVecOf for [PhysicalStructure] {
    fn to_vec_of(&self) -> Vec<PhysicalStructure> {
        self.iter()
            .map(|p| PhysicalStructure {
                stream_name: p.stream_name.clone(),
                structure_name: p.structure_name.clone(),
                bytes: p.bytes.clone(),
                start_index: p.start_index,
                end_index: p.end_index,
                description: p.description.clone(),
            })
            .collect()
    }
}

fn summary_tree(name: &str) -> Structure {
    Structure {
        name: name.to_string(),
        structure: vec![StructureItem { name: "title".to_string(), value: "null".to_string(), description: None }],
        substructs: None,
    }
}

#[test]
fn document_as_trees_of_fields() {
    let (document, _, _) = assembled();
    let trees = document.get_logical_structures(summary_tree("Document Summary Information"), summary_tree("Summary Information"));
    let names: Vec<&str> = trees.iter().map(|t| t.name.as_str()).collect();
    assert_eq!(names, vec!["Fib", "StyleSheet", "Piece Tables", "Document Summary Information", "Summary Information"]);
    assert_eq!(trees[0].structure.len(), 366);
    assert!(trees[0].substructs.is_none());
    assert_eq!(trees[1].structure.len(), 6);
    let styles = trees[1].substructs.as_ref().unwrap();
    assert_eq!(styles.len(), 2);
    assert_eq!(styles[0].name, "Normal");
    assert_eq!(styles[1].name, "Title");
    assert_eq!(styles[1].structure.len(), 28);
    assert!(trees[2].structure.is_empty());
    let shown = trees[2].substructs.as_ref().unwrap();
    assert_eq!(shown.len(), 2);
    assert_eq!(shown[0].name, "PCD 0");
    assert_eq!(shown[1].name, "PCD 1");
    assert_eq!(shown[1].structure, document.piece_table.as_ref().unwrap().rgstruct[1].structure_items());
    assert_eq!(trees[4], summary_tree("Summary Information"));
}

#[test]
fn documents_are_compared_tree_by_tree() {
    let (document, _, _) = assembled();
    let (mut other, _, _) = assembled();
    other.fib.nFib = 194;
    other.stylesheet.as_mut().unwrap().styles[0].as_mut().unwrap().xstzName = "Standard".to_string();
    other.piece_table.as_mut().unwrap().rgstruct[1].fc = 9;
    let a = document.get_logical_structures(summary_tree("D"), summary_tree("S"));
    let b = other.get_logical_structures(summary_tree("D"), summary_tree("S"));
    let compared = WordDocument::compare_to_logical(&a, &b);
    assert_eq!(compared.len(), 5);
    let fib = &compared[0];
    assert_eq!(fib.ref_structure.unwrap().structure[1].value, "194");
    assert_eq!(fib.comp_structure.unwrap().structure[1].value, "193");
    assert_eq!(fib.structure_differences.len(), 366);
    assert_eq!(fib.structure_differences.iter().filter(|d| **d).count(), 1);
    assert!(fib.structure_differences[1]);
    assert!(fib.substructure_differences.is_empty());

    let sheet = &compared[1];
    assert!(sheet.structure_differences.iter().all(|d| !d));
    let styles = &sheet.substructure_differences;
    assert_eq!(styles.len(), 3);
    assert_eq!(styles[0].ref_structure.unwrap().name, "Normal");
    assert!(styles[0].comp_structure.is_none());
    assert_eq!(styles[1].ref_structure.unwrap().name, "Title");
    assert_eq!(styles[1].comp_structure.unwrap().name, "Title");
    assert!(styles[1].structure_differences.iter().all(|d| !d));
    assert!(styles[2].ref_structure.is_none());
    assert_eq!(styles[2].comp_structure.unwrap().name, "Standard");

    let piece_tables = &compared[2].substructure_differences;
    assert_eq!(piece_tables.len(), 2);
    assert!(piece_tables[0].structure_differences.iter().all(|d| !d));
    assert_eq!(piece_tables[1].structure_differences, vec![false, false, false, true, false]);
    assert!(compared[3].structure_differences.iter().all(|d| !d));

    let same = WordDocument::compare_to_logical(&a, &a);
    for entry in &same {
        assert!(entry.structure_differences.iter().all(|d| !d));
        for below in &entry.substructure_differences {
            assert!(below.ref_structure.is_some() && below.comp_structure.is_some());
            assert!(below.structure_differences.iter().all(|d| !d));
        }
    }
}

#[test]
fn structures_below_only_one_side_are_missing_on_the_other() {
    let leaf = |n: &str| Structure { name: n.to_string(), structure: vec![], substructs: None };
    let with = Structure { name: "S".to_string(), structure: vec![], substructs: Some(vec![leaf("a"), leaf("b")]) };
    let without = leaf("S");
    let a = vec![with, without];
    let b = vec![leaf("S"), Structure { name: "S".to_string(), structure: vec![], substructs: Some(vec![leaf("c")]) }];
    let compared = WordDocument::compare_to_logical(&a, &b);
    assert_eq!(compared.len(), 2);
    let first = &compared[0].substructure_differences;
    assert_eq!(first.len(), 2);
    assert_eq!(first[1].ref_structure.unwrap().name, "b");
    assert!(first[1].comp_structure.is_none());
    let second = &compared[1].substructure_differences;
    assert_eq!(second.len(), 1);
    assert!(second[0].ref_structure.is_none());
    assert_eq!(second[0].comp_structure.unwrap().name, "c");
}
