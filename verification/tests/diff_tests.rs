use doc_anal::{
    compute_physical_differences, compute_structure_item_differences,
    compute_subsctructure_differences, Structure, StructureItem,
};

fn item(name: &str, value: &str) -> StructureItem {
    StructureItem { name: name.to_string(), value: value.to_string(), description: None }
}

fn structure(name: &str, items: Vec<StructureItem>) -> Structure {
    Structure { name: name.to_string(), structure: items, substructs: None }
}

#[test]
fn test_physical_compute_differences() {
    let vec1 = vec![0, 1, 2, 3, 4, 5, 6, 7, 8, 9];
    let vec2 = vec![0, 1, 2, 3, 4, 5, 6, 7, 8, 10];
    let differences = compute_physical_differences(vec1, vec2);
    // Ranges count nibbles: the last byte is nibbles 18 and 19, and only the
    // low nibble differs.
    assert_eq!(differences, vec![(19, 20)]);
}

#[test]
fn test_logical_differences() {
    let test_structure = Structure {
        name: "STHI".to_string(),
        structure: vec![
            StructureItem {
                name: "cstd".to_string(),
                value: "0x00000001".to_string(),
                description: None,
            },
            StructureItem {
                name: "cbSTDBaseInX".to_string(),
                value: "0x00000000".to_string(),
                description: None,
            },
            StructureItem {
                name: "cbSTDBaseInY".to_string(),
                value: "0x00000000".to_string(),
                description: None,
            },
        ],
        substructs: None,
    };

    let test_other_strucure = Structure {
        name: "STHI".to_string(),
        structure: vec![
            StructureItem {
                name: "cstd".to_string(),
                value: "0x00000001".to_string(),
                description: None,
            },
            StructureItem {
                name: "cbSTDBaseInX".to_string(),
                value: "0x00000000".to_string(),
                description: None,
            },
            StructureItem {
                name: "cbSTDBaseInY".to_string(),
                value: "0x00000001".to_string(),
                description: None,
            },
        ],
        substructs: None,
    };

    let differences = compute_structure_item_differences(
        &test_structure.structure,
        &test_other_strucure.structure,
    );
    assert_eq!(differences, vec![false, false, true]);
}

#[test]
fn test_substructure_logical() {
    let styles_1 = vec![
        Structure {
            name: "Normal,DO NOT USE,n".to_string(),
            structure: vec![
                StructureItem {
                    name: "std".to_string(),
                    value: "0".to_string(),
                    description: None,
                },
                StructureItem {
                    name: "fScratch".to_string(),
                    value: "false".to_string(),
                    description: None,
                },
            ],
            substructs: None,
        },
        Structure {
            name: "Heading 1,H1".to_string(),
            structure: vec![
                StructureItem {
                    name: "std".to_string(),
                    value: "1".to_string(),
                    description: None,
                },
                StructureItem {
                    name: "fScratch".to_string(),
                    value: "false".to_string(),
                    description: None,
                },
            ],
            substructs: None,
        },
    ];

    let styles_2 = vec![
        Structure {
            name: "Normal,DO NOT USE,n".to_string(),
            structure: vec![
                StructureItem {
                    name: "std".to_string(),
                    value: "65".to_string(),
                    description: None,
                },
                StructureItem {
                    name: "fScratch".to_string(),
                    value: "false".to_string(),
                    description: None,
                },
            ],
            substructs: None,
        },
        Structure {
            name: "Heading 2,H2".to_string(),
            structure: vec![
                StructureItem {
                    name: "std".to_string(),
                    value: "2".to_string(),
                    description: None,
                },
                StructureItem {
                    name: "fScratch".to_string(),
                    value: "false".to_string(),
                    description: None,
                },
            ],
            substructs: None,
        },
    ];

    let differences = compute_subsctructure_differences(&styles_1, &styles_2);
    assert_eq!(differences.len(), 3);
    assert_eq!(differences[0].structure_differences, vec![true, false]);

    assert!(differences[1].ref_structure.is_some());
    assert!(differences[1].comp_structure.is_none());

    assert!(differences[2].ref_structure.is_none());
    assert!(differences[2].comp_structure.is_some());
}

#[test]
fn physical_differences_of_equal_ranges_are_none() {
    let bytes = vec![0x12u8, 0x34, 0xFF, 0x00];
    assert_eq!(compute_physical_differences(bytes.clone(), bytes), vec![]);
    assert_eq!(compute_physical_differences(vec![], vec![]), vec![]);
}

#[test]
fn physical_differences_do_not_depend_on_the_order() {
    let a = vec![0x12u8, 0x34, 0x56, 0x78];
    let b = vec![0x12u8, 0x3F, 0xF6, 0x79];
    let forward = compute_physical_differences(a.clone(), b.clone());
    let backward = compute_physical_differences(b, a);
    assert_eq!(forward, vec![(3, 5), (7, 8)]);
    assert_eq!(forward, backward);
}

#[test]
fn physical_differences_end_with_the_excess() {
    let a = vec![0xAAu8, 0xBB];
    let b = vec![0xAAu8, 0xBC, 0x01];
    assert_eq!(compute_physical_differences(a.clone(), b.clone()), vec![(3, 4), (4, 6)]);
    assert_eq!(compute_physical_differences(b, a), vec![(3, 4), (4, 6)]);
    assert_eq!(compute_physical_differences(vec![], vec![7]), vec![(0, 2)]);
}

#[test]
fn physical_differences_join_adjacent_nibbles() {
    let a = vec![0x00u8, 0x00, 0x00];
    let b = vec![0x0Fu8, 0xFF, 0x00];
    assert_eq!(compute_physical_differences(a, b), vec![(1, 4)]);
}

#[test]
fn logical_differences_stop_at_the_shorter_list() {
    let a = vec![item("x", "1"), item("y", "2"), item("z", "3")];
    let b = vec![item("x", "1"), item("y", "9")];
    assert_eq!(compute_structure_item_differences(&a, &b), vec![false, true]);
    assert_eq!(compute_structure_item_differences(&b, &a), vec![false, true]);
    assert_eq!(compute_structure_item_differences(&a, &vec![]), Vec::<bool>::new());
}

#[test]
fn structure_compared_with_itself_has_no_difference() {
    let styles = vec![
        structure("Normal", vec![item("sti", "0"), item("fScratch", "false")]),
        structure("Heading 1", vec![item("sti", "1")]),
        structure("Empty", vec![]),
    ];
    assert_eq!(
        compute_structure_item_differences(&styles[0].structure, &styles[0].structure),
        vec![false, false]
    );
    let differences = compute_subsctructure_differences(&styles, &styles);
    assert_eq!(differences.len(), 3);
    for (i, entry) in differences.iter().enumerate() {
        assert_eq!(entry.ref_structure.unwrap().name, styles[i].name);
        assert_eq!(entry.comp_structure.unwrap().name, styles[i].name);
        assert!(entry.structure_differences.iter().all(|d| !d));
        assert_eq!(entry.structure_differences.len(), styles[i].structure.len());
        assert!(entry.substructure_differences.is_empty());
    }
}

fn tree(name: &str, items: Vec<StructureItem>, below: Vec<Structure>) -> Structure {
    Structure { name: name.to_string(), structure: items, substructs: Some(below) }
}

#[test]
fn partners_are_compared_below_them_too() {
    let a = vec![tree(
        "Sheet",
        vec![item("cstd", "2")],
        vec![
            tree("Body", vec![item("sti", "1")], vec![structure("Tab", vec![item("pos", "720")])]),
            structure("Gone", vec![item("sti", "9")]),
        ],
    )];
    let b = vec![tree(
        "Sheet",
        vec![item("cstd", "3")],
        vec![
            structure("New", vec![]),
            tree("Body", vec![item("sti", "1")], vec![structure("Tab", vec![item("pos", "1440")])]),
        ],
    )];
    let differences = compute_subsctructure_differences(&a, &b);
    assert_eq!(differences.len(), 1);
    assert_eq!(differences[0].structure_differences, vec![true]);
    let below = &differences[0].substructure_differences;
    assert_eq!(below.len(), 3);
    assert_eq!(below[0].ref_structure.unwrap().name, "Body");
    assert_eq!(below[0].comp_structure.unwrap().name, "Body");
    assert_eq!(below[0].structure_differences, vec![false]);
    assert_eq!(below[1].ref_structure.unwrap().name, "Gone");
    assert!(below[1].comp_structure.is_none());
    assert!(below[1].substructure_differences.is_empty());
    assert!(below[2].ref_structure.is_none());
    assert_eq!(below[2].comp_structure.unwrap().name, "New");
    let deeper = &below[0].substructure_differences;
    assert_eq!(deeper.len(), 1);
    assert_eq!(deeper[0].ref_structure.unwrap().name, "Tab");
    assert_eq!(deeper[0].comp_structure.unwrap().name, "Tab");
    assert_eq!(deeper[0].structure_differences, vec![true]);
    assert!(deeper[0].substructure_differences.is_empty());
}

#[test]
fn partners_with_structures_on_one_side_only() {
    let a = vec![
        tree("S", vec![], vec![structure("x", vec![item("f", "1")]), structure("y", vec![])]),
        structure("T", vec![]),
        tree("U", vec![], vec![]),
    ];
    let b = vec![
        structure("S", vec![]),
        tree("T", vec![], vec![structure("z", vec![item("g", "2")])]),
        structure("U", vec![]),
    ];
    let differences = compute_subsctructure_differences(&a, &b);
    assert_eq!(differences.len(), 3);
    let s = &differences[0].substructure_differences;
    assert_eq!(s.len(), 2);
    assert_eq!(s[0].ref_structure.unwrap().name, "x");
    assert!(s[0].comp_structure.is_none());
    assert_eq!(s[0].structure_differences, vec![false]);
    assert_eq!(s[1].ref_structure.unwrap().name, "y");
    let t = &differences[1].substructure_differences;
    assert_eq!(t.len(), 1);
    assert!(t[0].ref_structure.is_none());
    assert_eq!(t[0].comp_structure.unwrap().name, "z");
    assert_eq!(t[0].structure_differences, vec![false]);
    assert!(differences[2].substructure_differences.is_empty());
}

fn nothing_differs(entries: &[doc_anal::ComparisonLogicalStructure]) -> bool {
    entries.iter().all(|e| {
        e.ref_structure.is_some()
            && e.comp_structure.is_some()
            && e.structure_differences.iter().all(|d| !d)
            && nothing_differs(&e.substructure_differences)
    })
}

#[test]
fn tree_compared_with_itself_has_no_difference_at_any_depth() {
    let trees = vec![
        tree(
            "Sheet",
            vec![item("cstd", "2")],
            vec![
                tree("Body", vec![item("sti", "1")], vec![structure("Tab", vec![item("pos", "720")])]),
                structure("Title", vec![item("sti", "62")]),
            ],
        ),
        structure("Pieces", vec![]),
    ];
    let differences = compute_subsctructure_differences(&trees, &trees);
    assert_eq!(differences.len(), 2);
    assert!(nothing_differs(&differences));
    assert_eq!(differences[0].substructure_differences.len(), 2);
    assert_eq!(differences[0].substructure_differences[0].substructure_differences.len(), 1);
    assert!(differences[1].substructure_differences.is_empty());
}

#[test]
fn renamed_structure_is_missing_once_on_each_side() {
    let a = vec![
        structure("Normal", vec![item("sti", "0")]),
        structure("Heading 1", vec![item("sti", "1"), item("stk", "4096")]),
        structure("Title", vec![item("sti", "62")]),
    ];
    let b = vec![
        structure("Normal", vec![item("sti", "0")]),
        structure("Heading One", vec![item("sti", "1"), item("stk", "4096")]),
        structure("Title", vec![item("sti", "63")]),
    ];
    let differences = compute_subsctructure_differences(&a, &b);
    assert_eq!(differences.len(), 4);
    assert_eq!(differences[0].structure_differences, vec![false]);
    assert_eq!(differences[1].ref_structure.unwrap().name, "Heading 1");
    assert!(differences[1].comp_structure.is_none());
    assert_eq!(differences[1].structure_differences, vec![false, false]);
    assert_eq!(differences[2].comp_structure.unwrap().name, "Title");
    assert_eq!(differences[2].structure_differences, vec![true]);
    assert!(differences[3].ref_structure.is_none());
    assert_eq!(differences[3].comp_structure.unwrap().name, "Heading One");
    assert_eq!(differences[3].structure_differences, vec![false, false]);
    let only_on_a = differences.iter().filter(|d| d.comp_structure.is_none()).count();
    let only_on_b = differences.iter().filter(|d| d.ref_structure.is_none()).count();
    assert_eq!((only_on_a, only_on_b), (1, 1));
}

#[test]
fn structure_is_compared_with_the_first_of_its_name() {
    let a = vec![structure("S", vec![item("f", "1")])];
    let b = vec![
        structure("T", vec![item("f", "1")]),
        structure("S", vec![item("f", "2")]),
        structure("S", vec![item("f", "1")]),
    ];
    let differences = compute_subsctructure_differences(&a, &b);
    assert_eq!(differences.len(), 3);
    assert_eq!(differences[0].structure_differences, vec![true]);
    assert_eq!(differences[1].comp_structure.unwrap().name, "T");
    assert!(differences[1].ref_structure.is_none());
    assert_eq!(differences[2].comp_structure.unwrap().structure[0].value, "1");
    assert!(differences[2].ref_structure.is_none());
}
