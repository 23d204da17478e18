//! The structural diff: where two byte ranges differ, nibble by nibble, and
//! where two field trees differ, field by field.

use vstd::prelude::*;
use crate::model::{ComparisonLogicalStructure, Structure, StructureItem};

verus! {

/// Nibble `i` of `bytes`: the high half of a byte comes before its low half.
pub open spec fn nibble_at(bytes: Seq<u8>, i: int) -> u8 {
    if i % 2 == 0 {
        bytes[i / 2] >> 4
    } else {
        bytes[i / 2] & 0x0F
    }
}

/// The state of a walk over the first `k` pairs of nibbles of `a` and `b`:
/// the runs of unequal nibbles that have ended, and where the run begins that
/// has not.
pub open spec fn walked(a: Seq<u8>, b: Seq<u8>, k: nat) -> (Seq<(usize, usize)>, Option<usize>)
    decreases k,
{
    if k == 0 {
        (Seq::empty(), None)
    } else {
        let (runs, open) = walked(a, b, (k - 1) as nat);
        if nibble_at(a, k - 1) != nibble_at(b, k - 1) {
            (
                runs,
                if open is None {
                    Some((k - 1) as usize)
                } else {
                    open
                },
            )
        } else {
            match open {
                Some(start) => (runs.push((start, (k - 1) as usize)), None),
                None => (runs, None),
            }
        }
    }
}

/// The smaller of two lengths.
pub open spec fn shorter(m: nat, n: nat) -> nat {
    if m <= n {
        m
    } else {
        n
    }
}

/// The larger of two lengths.
pub open spec fn longer(m: nat, n: nat) -> nat {
    if m <= n {
        n
    } else {
        m
    }
}

/// Where `a` and `b` differ, as ranges of nibble numbers that include their
/// start and not their end: one range for each maximal run of unequal
/// nibbles among the nibbles that both have, and, where one is longer, a last
/// range for the nibbles that only the longer has.
pub open spec fn physical_differences(a: Seq<u8>, b: Seq<u8>) -> Seq<(usize, usize)> {
    let common = shorter(2 * a.len(), 2 * b.len());
    let (runs, open) = walked(a, b, common);
    let closed = match open {
        Some(start) => runs.push((start, common as usize)),
        None => runs,
    };
    if a.len() != b.len() {
        closed.push((common as usize, longer(2 * a.len(), 2 * b.len()) as usize))
    } else {
        closed
    }
}

/// Nibble `i` of `bytes`.
fn nibble(bytes: &Vec<u8>, i: usize) -> (r: u8)
    requires
        i < 2 * bytes@.len(),
    ensures
        r == nibble_at(bytes@, i as int),
{
    if i % 2 == 0 {
        bytes[i / 2] >> 4
    } else {
        bytes[i / 2] & 0x0F
    }
}

/// Compares two byte ranges nibble by nibble and gives the ranges of nibble
/// numbers in which they differ.
pub fn compute_physical_differences(vec1: Vec<u8>, vec2: Vec<u8>) -> (differences: Vec<
    (usize, usize),
>)
    requires
        2 * vec1@.len() <= usize::MAX,
        2 * vec2@.len() <= usize::MAX,
    ensures
        differences@ == physical_differences(vec1@, vec2@),
{
    let len1: usize = 2 * vec1.len();
    let len2: usize = 2 * vec2.len();
    let common: usize = if len1 <= len2 {
        len1
    } else {
        len2
    };
    let mut differences: Vec<(usize, usize)> = Vec::new();
    let mut start: Option<usize> = None;
    let mut i: usize = 0;
    while i < common
        invariant
            i <= common,
            common == shorter(2 * vec1@.len(), 2 * vec2@.len()),
            (differences@, start) == walked(vec1@, vec2@, i as nat),
        decreases common - i,
    {
        if nibble(&vec1, i) != nibble(&vec2, i) {
            if start.is_none() {
                start = Some(i);
            }
        } else {
            if let Some(s) = start {
                differences.push((s, i));
                start = None;
            }
        }
        i = i + 1;
    }
    if let Some(s) = start {
        differences.push((s, common));
    }
    if len1 > len2 {
        differences.push((len2, len1));
    } else if len2 > len1 {
        differences.push((len1, len2));
    }
    differences
}

/// The walk does not depend on which range is called the first.
pub proof fn lemma_walked_symmetric(a: Seq<u8>, b: Seq<u8>, k: nat)
    ensures
        walked(a, b, k) == walked(b, a, k),
    decreases k,
{
    if k > 0 {
        lemma_walked_symmetric(a, b, (k - 1) as nat);
    }
}

/// A walk over a range and itself finds nothing.
pub proof fn lemma_walked_same(a: Seq<u8>, k: nat)
    ensures
        walked(a, a, k) == (Seq::<(usize, usize)>::empty(), None::<usize>),
    decreases k,
{
    if k > 0 {
        lemma_walked_same(a, (k - 1) as nat);
    }
}

/// Law: comparing `a` with `b` gives the ranges that comparing `b` with `a`
/// gives, and comparing a range with itself gives none.
pub proof fn lemma_physical_differences_symmetric(a: Seq<u8>, b: Seq<u8>)
    ensures
        physical_differences(a, b) == physical_differences(b, a),
        physical_differences(a, a) == Seq::<(usize, usize)>::empty(),
{
    lemma_walked_symmetric(a, b, shorter(2 * a.len(), 2 * b.len()));
    lemma_walked_same(a, (2 * a.len()) as nat);
}

/// Whether nibble `i` of `a` is not nibble `i` of `b`.
pub open spec fn differ(a: Seq<u8>, b: Seq<u8>, i: int) -> bool {
    nibble_at(a, i) != nibble_at(b, i)
}

/// Whether nibble number `i` lies in one of `ranges`.
pub open spec fn in_ranges(ranges: Seq<(usize, usize)>, i: int) -> bool {
    exists|r: int| 0 <= r < ranges.len() && (#[trigger] ranges[r]).0 <= i < ranges[r].1
}

/// Whether `range` is a maximal run of unequal nibbles among the first `k`
/// nibbles of `a` and `b`: every nibble in it differs, and the nibbles next
/// to it, where there are any, do not.
pub open spec fn maximal_run(a: Seq<u8>, b: Seq<u8>, range: (usize, usize), k: int) -> bool {
    &&& 0 <= range.0 < range.1 <= k
    &&& forall|i: int| range.0 <= i < range.1 ==> differ(a, b, i)
    &&& range.0 > 0 ==> !differ(a, b, range.0 - 1)
    &&& range.1 < k ==> !differ(a, b, range.1 as int)
}

/// What holds of a walk over the first `k` pairs of nibbles: the runs that
/// have ended are maximal and in order, the run that has not ended reaches
/// up to `k`, and every unequal nibble lies in one of them.
pub open spec fn walk_is_sound(a: Seq<u8>, b: Seq<u8>, k: nat) -> bool {
    let (runs, open) = walked(a, b, k);
    &&& forall|r: int| 0 <= r < runs.len() ==> maximal_run(a, b, #[trigger] runs[r], k as int)
    &&& forall|r: int| 0 <= r < runs.len() ==> (#[trigger] runs[r]).1 < k
    &&& match open {
        Some(start) => {
            &&& start < k
            &&& forall|i: int| start <= i < k ==> differ(a, b, i)
            &&& start > 0 ==> !differ(a, b, start - 1)
            &&& forall|r: int| 0 <= r < runs.len() ==> (#[trigger] runs[r]).1 < start
        },
        None => k > 0 ==> !differ(a, b, k - 1),
    }
    &&& forall|i: int|
        0 <= i < k && #[trigger] differ(a, b, i) ==> in_ranges(runs, i) || (open matches Some(start)
            && start <= i)
}

/// Every walk is sound.
pub proof fn lemma_walk_is_sound(a: Seq<u8>, b: Seq<u8>, k: nat)
    requires
        k <= usize::MAX,
    ensures
        walk_is_sound(a, b, k),
    decreases k,
{
    if k > 0 {
        lemma_walk_is_sound(a, b, (k - 1) as nat);
        let (before, open_before) = walked(a, b, (k - 1) as nat);
        let (runs, open) = walked(a, b, k);
        assert forall|r: int| 0 <= r < runs.len() implies maximal_run(a, b, #[trigger] runs[r], k as int)
            && runs[r].1 < k by {
            if r < before.len() {
                assert(runs[r] == before[r]);
                assert(maximal_run(a, b, before[r], k - 1));
            }
        }
        assert forall|i: int| 0 <= i < k && #[trigger] differ(a, b, i) implies in_ranges(runs, i) || (
        open matches Some(start) && start <= i) by {
            if i < k - 1 {
                if in_ranges(before, i) {
                    let r = choose|r: int|
                        0 <= r < before.len() && (#[trigger] before[r]).0 <= i < before[r].1;
                    assert(runs[r] == before[r]);
                } else {
                    let start = open_before->Some_0;
                    if !differ(a, b, k - 1) {
                        assert(runs[before.len() as int] == (start, (k - 1) as usize));
                    }
                }
            }
        }
        match open {
            Some(start) => {
                assert forall|r: int| 0 <= r < runs.len() implies (#[trigger] runs[r]).1 < start by {
                    assert(runs[r] == before[r]);
                }
            },
            None => {},
        }
    }
}

/// Law: the ranges in which two byte ranges differ are the maximal runs of
/// unequal nibbles among the nibbles that both have, and behind them the
/// nibbles that only the longer has: every range is one or the other, and a
/// nibble that both have lies in a range exactly where it differs.
pub proof fn lemma_physical_differences_are_the_runs(a: Seq<u8>, b: Seq<u8>)
    requires
        2 * a.len() <= usize::MAX,
        2 * b.len() <= usize::MAX,
    ensures
        forall|r: int|
            0 <= r < physical_differences(a, b).len() ==> maximal_run(
                a,
                b,
                #[trigger] physical_differences(a, b)[r],
                shorter(2 * a.len(), 2 * b.len()) as int,
            ) || (a.len() != b.len() && r == physical_differences(a, b).len() - 1
                && physical_differences(a, b)[r] == (
                shorter(2 * a.len(), 2 * b.len()) as usize,
                longer(2 * a.len(), 2 * b.len()) as usize,
            )),
        forall|i: int|
            0 <= i < shorter(2 * a.len(), 2 * b.len()) ==> (#[trigger] differ(a, b, i) <==> in_ranges(
                physical_differences(a, b),
                i,
            )),
{
    let common = shorter(2 * a.len(), 2 * b.len());
    let whole = longer(2 * a.len(), 2 * b.len());
    lemma_walk_is_sound(a, b, common);
    let (runs, open) = walked(a, b, common);
    let closed = match open {
        Some(start) => runs.push((start, common as usize)),
        None => runs,
    };
    let all = physical_differences(a, b);
    assert forall|r: int| 0 <= r < closed.len() implies maximal_run(a, b, #[trigger] closed[r], common as int)
        by {
        if r < runs.len() {
            assert(closed[r] == runs[r]);
        }
    }
    assert forall|r: int| 0 <= r < all.len() implies maximal_run(a, b, #[trigger] all[r], common as int) || (
    a.len() != b.len() && r == all.len() - 1 && all[r] == (common as usize, whole as usize)) by {
        if r < closed.len() {
            assert(all[r] == closed[r]);
        }
    }
    assert forall|i: int| 0 <= i < common implies (#[trigger] differ(a, b, i) <==> in_ranges(all, i)) by {
        if differ(a, b, i) {
            if in_ranges(runs, i) {
                let r = choose|r: int| 0 <= r < runs.len() && (#[trigger] runs[r]).0 <= i < runs[r].1;
                assert(closed[r] == runs[r]);
                assert(all[r] == runs[r]);
            } else {
                assert(closed[runs.len() as int] == (open->Some_0, common as usize));
                assert(all[runs.len() as int] == closed[runs.len() as int]);
            }
        }
        if in_ranges(all, i) {
            let r = choose|r: int| 0 <= r < all.len() && (#[trigger] all[r]).0 <= i < all[r].1;
            if r < closed.len() {
                assert(all[r] == closed[r]);
                assert(maximal_run(a, b, closed[r], common as int));
            }
        }
    }
}

/// For each place that both lists have, whether the values of the two fields
/// there differ.
pub open spec fn item_differences(items: Seq<StructureItem>, other_items: Seq<StructureItem>) -> Seq<
    bool,
> {
    Seq::new(
        shorter(items.len(), other_items.len()),
        |i: int| items[i].value@ != other_items[i].value@,
    )
}

/// Whether the fields of the two lists have the same names, place by place,
/// as far as both lists go.
pub open spec fn same_fields(items: Seq<StructureItem>, other_items: Seq<StructureItem>) -> bool {
    forall|i: int|
        0 <= i < shorter(items.len(), other_items.len()) ==> (#[trigger] items[i]).name@
            == other_items[i].name@
}

/// Compares the fields of two structures of one kind place by place: `true`
/// where the values differ. The two lists must name the same fields.
pub fn compute_structure_item_differences(
    items: &Vec<StructureItem>,
    other_items: &Vec<StructureItem>,
) -> (differences: Vec<bool>)
    requires
        same_fields(items@, other_items@),
    ensures
        differences@ == item_differences(items@, other_items@),
{
    let n: usize = if items.len() <= other_items.len() {
        items.len()
    } else {
        other_items.len()
    };
    let mut differences: Vec<bool> = Vec::new();
    let mut i: usize = 0;
    while i < n
        invariant
            i <= n,
            n == shorter(items@.len(), other_items@.len()),
            differences@.len() == i,
            forall|j: int| 0 <= j < i ==> differences@[j] == (items@[j].value@ != other_items@[j].value@),
        decreases n - i,
    {
        if items[i].value == other_items[i].value {
            differences.push(false);
        } else {
            differences.push(true);
        }
        i = i + 1;
    }
    assert(differences@ =~= item_differences(items@, other_items@));
    differences
}

/// `n` times `false`.
pub open spec fn all_false(n: nat) -> Seq<bool> {
    Seq::new(n, |i: int| false)
}

/// `n` times `false`.
pub fn no_differences(n: usize) -> (r: Vec<bool>)
    ensures
        r@ == all_false(n as nat),
{
    let mut r: Vec<bool> = Vec::new();
    let mut i: usize = 0;
    while i < n
        invariant
            i <= n,
            r@.len() == i,
            forall|j: int| 0 <= j < i ==> !r@[j],
        decreases n - i,
    {
        r.push(false);
        i = i + 1;
    }
    assert(r@ =~= all_false(n as nat));
    r
}

/// The place of the first of the first `upto` structures of `others` that is
/// named `name`, or `upto` where none is.
pub open spec fn first_named(others: Seq<Structure>, name: Seq<char>, upto: nat) -> int
    decreases upto,
{
    if upto == 0 {
        0
    } else {
        let before = first_named(others, name, (upto - 1) as nat);
        if before < upto - 1 {
            before
        } else if others[upto - 1].name@ == name {
            upto - 1
        } else {
            upto as int
        }
    }
}

/// The place in `others` that structure `i` of `subs` is compared with: that
/// of the first structure of its name, or the length of `others` where no
/// structure has its name.
pub open spec fn partner(subs: Seq<Structure>, others: Seq<Structure>, i: int) -> int {
    first_named(others, subs[i].name@, others.len())
}

/// Whether one of the first `k` structures of `subs` is compared with
/// structure `j` of `others`.
pub open spec fn compared(subs: Seq<Structure>, others: Seq<Structure>, j: int, k: nat) -> bool
    decreases k,
{
    k > 0 && (partner(subs, others, k - 1) == j || compared(subs, others, j, (k - 1) as nat))
}

/// The places of those of the first `upto` structures of `others` that no
/// structure of `subs` is compared with, in order.
pub open spec fn unmatched(subs: Seq<Structure>, others: Seq<Structure>, upto: nat) -> Seq<int>
    decreases upto,
{
    if upto == 0 {
        Seq::empty()
    } else if compared(subs, others, upto - 1, subs.len()) {
        unmatched(subs, others, (upto - 1) as nat)
    } else {
        unmatched(subs, others, (upto - 1) as nat).push(upto - 1)
    }
}

/// What one entry of a comparison says: which structure of the one side and
/// which of the other it is about, for each field whether it differs, and
/// what the comparison of the structures below the two says.
pub ghost struct ComparisonEntry {
    pub on_ref: Option<int>,
    pub on_comp: Option<int>,
    pub flags: Seq<bool>,
    pub below: Seq<ComparisonEntry>,
}

/// The structures below, or none.
pub open spec fn parts_or_none(subs: Option<Vec<Structure>>) -> Seq<Structure> {
    match subs {
        Some(v) => v@,
        None => Seq::empty(),
    }
}

/// The entry for a structure that only one side has, structure `j` of
/// `list`: on the side of the reference where `on_ref` holds, else on the
/// other; no field is marked, and nothing is compared below it.
pub open spec fn one_sided_entry(list: Seq<Structure>, j: int, on_ref: bool) -> ComparisonEntry {
    ComparisonEntry {
        on_ref: if on_ref {
            Some(j)
        } else {
            None
        },
        on_comp: if on_ref {
            None
        } else {
            Some(j)
        },
        flags: all_false(list[j].structure@.len()),
        below: Seq::empty(),
    }
}

/// The entries for the structures of `list`, which only one side has.
pub open spec fn one_sided(list: Seq<Structure>, on_ref: bool) -> Seq<ComparisonEntry> {
    Seq::new(list.len(), |j: int| one_sided_entry(list, j, on_ref))
}

/// What the comparison of the structures below `a` and below `b` says: where
/// both have some, their comparison; where one has some, that the other
/// lacks each of them; and nothing where neither has any.
pub open spec fn parts_compared(a: Structure, b: Structure) -> Seq<ComparisonEntry>
    decreases a, 0nat,
{
    match a.substructs {
        Some(r) => match b.substructs {
            Some(o) => substructure_differences(r@, o@),
            None => one_sided(r@, true),
        },
        None => match b.substructs {
            Some(o) => one_sided(o@, false),
            None => Seq::empty(),
        },
    }
}

/// The entry for structure `i` of `subs`: compared with its partner where it
/// has one, field by field and then below the two in the same way, and else
/// marked as missing on the other side.
pub open spec fn entry_of(subs: Seq<Structure>, others: Seq<Structure>, i: int) -> ComparisonEntry
    decreases subs, 0nat,
{
    let j = partner(subs, others, i);
    if 0 <= i < subs.len() && j < others.len() {
        ComparisonEntry {
            on_ref: Some(i),
            on_comp: Some(j),
            flags: item_differences(subs[i].structure@, others[j].structure@),
            below: parts_compared(subs[i], others[j]),
        }
    } else {
        one_sided_entry(subs, i, true)
    }
}

/// The entry for structure `j` of `others` that nothing is compared with:
/// marked as missing on the first side.
pub open spec fn entry_of_unmatched(others: Seq<Structure>, j: int) -> ComparisonEntry {
    one_sided_entry(others, j, false)
}

/// The comparison of two lists of named structures: one entry for each
/// structure of `subs`, in order, and then one for each structure of `others`
/// that none of `subs` is compared with, in order. The structures below a
/// pair of partners are compared in the same way, at every depth.
pub open spec fn substructure_differences(subs: Seq<Structure>, others: Seq<Structure>) -> Seq<
    ComparisonEntry,
>
    decreases subs, 1nat,
{
    Seq::new(subs.len(), |i: int| entry_of(subs, others, i)) + unmatched(
        subs,
        others,
        others.len(),
    ).map_values(|j: int| entry_of_unmatched(others, j))
}

/// The structures below the structure that `model` names on the side of the
/// reference, among `subs`.
pub open spec fn parts_on_ref(model: ComparisonEntry, subs: Seq<Structure>) -> Seq<Structure> {
    match model.on_ref {
        Some(i) => parts_or_none(subs[i].substructs),
        None => Seq::empty(),
    }
}

/// The structures below the structure that `model` names on the other side,
/// among `others`.
pub open spec fn parts_on_comp(model: ComparisonEntry, others: Seq<Structure>) -> Seq<Structure> {
    match model.on_comp {
        Some(j) => parts_or_none(others[j].substructs),
        None => Seq::empty(),
    }
}

/// Whether `entry` says what `model` says of the structures of `subs` and
/// `others`, and the entries below it say what the entries below `model` say
/// of the structures below those two.
pub open spec fn entry_matches(
    entry: ComparisonLogicalStructure<'_, '_>,
    model: ComparisonEntry,
    subs: Seq<Structure>,
    others: Seq<Structure>,
) -> bool
    decreases model,
{
    &&& match model.on_ref {
        Some(i) => entry.ref_structure == Some(&subs[i]),
        None => entry.ref_structure is None,
    }
    &&& match model.on_comp {
        Some(j) => entry.comp_structure == Some(&others[j]),
        None => entry.comp_structure is None,
    }
    &&& entry.structure_differences@ == model.flags
    &&& entry.substructure_differences@.len() == model.below.len()
    &&& forall|k: int|
        0 <= k < model.below.len() ==> entry_matches(
            #[trigger] entry.substructure_differences@[k],
            model.below[k],
            parts_on_ref(model, subs),
            parts_on_comp(model, others),
        )
}

/// Whether `entries` say, one by one, what `models` say.
pub open spec fn entries_match(
    entries: Seq<ComparisonLogicalStructure<'_, '_>>,
    models: Seq<ComparisonEntry>,
    subs: Seq<Structure>,
    others: Seq<Structure>,
) -> bool {
    &&& entries.len() == models.len()
    &&& forall|i: int|
        0 <= i < entries.len() ==> entry_matches(#[trigger] entries[i], models[i], subs, others)
}

/// Whether the structures below `a` and below `b` can be compared: where
/// both have some, the partners among them can.
pub open spec fn parts_comparable(a: Structure, b: Structure) -> bool
    decreases a, 0nat,
{
    match a.substructs {
        Some(r) => match b.substructs {
            Some(o) => partners_have_same_fields(r@, o@),
            None => true,
        },
        None => true,
    }
}

/// Whether each structure of `subs` that has a partner in `others` names
/// the same fields as its partner, and so at every depth below the two.
pub open spec fn partners_have_same_fields(subs: Seq<Structure>, others: Seq<Structure>) -> bool
    decreases subs, 1nat,
{
    forall|i: int|
        0 <= i < subs.len() && #[trigger] partner(subs, others, i) < others.len() ==> same_fields(
            subs[i].structure@,
            others[partner(subs, others, i)].structure@,
        ) && parts_comparable(subs[i], others[partner(subs, others, i)])
}

/// The first of the first `upto` structures named `name` is before `upto`
/// exactly where it is named `name`.
pub proof fn lemma_first_named(others: Seq<Structure>, name: Seq<char>, upto: nat)
    requires
        upto <= others.len(),
    ensures
        0 <= first_named(others, name, upto) <= upto,
        first_named(others, name, upto) < upto ==> others[first_named(others, name, upto)].name@
            == name,
        forall|j: int| 0 <= j < first_named(others, name, upto) ==> (#[trigger] others[j]).name@ != name,
    decreases upto,
{
    if upto > 0 {
        lemma_first_named(others, name, (upto - 1) as nat);
    }
}

/// One entry for each structure of `list`, which the other side lacks.
pub fn missing_in_other<'a, 'b>(list: &'a Vec<Structure>) -> (entries: Vec<
    ComparisonLogicalStructure<'a, 'b>,
>)
    ensures
        entries_match(entries@, one_sided(list@, true), list@, Seq::empty()),
{
    let mut entries: Vec<ComparisonLogicalStructure<'a, 'b>> = Vec::new();
    let mut j: usize = 0;
    while j < list.len()
        invariant
            j <= list@.len(),
            entries@.len() == j,
            forall|k: int|
                0 <= k < j ==> entry_matches(
                    #[trigger] entries@[k],
                    one_sided_entry(list@, k, true),
                    list@,
                    Seq::empty(),
                ),
        decreases list@.len() - j,
    {
        let ghost before = entries@;
        let structure: &'a Structure = &list[j];
        entries.push(
            ComparisonLogicalStructure {
                ref_structure: Some(structure),
                comp_structure: None,
                structure_differences: no_differences(structure.structure.len()),
                substructure_differences: Vec::new(),
            },
        );
        assert forall|k: int| 0 <= k < j + 1 implies entry_matches(
            #[trigger] entries@[k],
            one_sided_entry(list@, k, true),
            list@,
            Seq::empty(),
        ) by {
            if k < j {
                assert(entries@[k] == before[k]);
            }
        }
        j = j + 1;
    }
    entries
}

/// One entry for each structure of `list`, which the side of the reference
/// lacks.
pub fn missing_in_reference<'a, 'b>(list: &'b Vec<Structure>) -> (entries: Vec<
    ComparisonLogicalStructure<'a, 'b>,
>)
    ensures
        entries_match(entries@, one_sided(list@, false), Seq::empty(), list@),
{
    let mut entries: Vec<ComparisonLogicalStructure<'a, 'b>> = Vec::new();
    let mut j: usize = 0;
    while j < list.len()
        invariant
            j <= list@.len(),
            entries@.len() == j,
            forall|k: int|
                0 <= k < j ==> entry_matches(
                    #[trigger] entries@[k],
                    one_sided_entry(list@, k, false),
                    Seq::empty(),
                    list@,
                ),
        decreases list@.len() - j,
    {
        let ghost before = entries@;
        let structure: &'b Structure = &list[j];
        entries.push(
            ComparisonLogicalStructure {
                ref_structure: None,
                comp_structure: Some(structure),
                structure_differences: no_differences(structure.structure.len()),
                substructure_differences: Vec::new(),
            },
        );
        assert forall|k: int| 0 <= k < j + 1 implies entry_matches(
            #[trigger] entries@[k],
            one_sided_entry(list@, k, false),
            Seq::empty(),
            list@,
        ) by {
            if k < j {
                assert(entries@[k] == before[k]);
            }
        }
        j = j + 1;
    }
    entries
}

/// Compares the structures below `a` with those below `b`: as two lists of
/// named structures where both have some; where only one has some, each of
/// them is reported as missing on the other side.
pub fn compare_parts<'a, 'b>(a: &'a Structure, b: &'b Structure) -> (differences: Vec<
    ComparisonLogicalStructure<'a, 'b>,
>)
    requires
        parts_comparable(*a, *b),
    ensures
        entries_match(
            differences@,
            parts_compared(*a, *b),
            parts_or_none(a.substructs),
            parts_or_none(b.substructs),
        ),
    decreases a, 0nat,
{
    match &a.substructs {
        Some(ref_substructures) => match &b.substructs {
            Some(other_substructures) => compute_subsctructure_differences(
                ref_substructures,
                other_substructures,
            ),
            None => missing_in_other(ref_substructures),
        },
        None => match &b.substructs {
            Some(other_substructures) => missing_in_reference(other_substructures),
            None => Vec::new(),
        },
    }
}

/// Compares two lists of named structures. A structure of the first list is
/// compared with the first structure of its name in the second: field by
/// field, and then the structures below the two in the same way. One that has
/// no such partner is reported as missing in the second list, and then each
/// structure of the second list that nothing was compared with as missing in
/// the first. Partners must name the same fields, at every depth.
pub fn compute_subsctructure_differences<'a, 'b>(
    substructures: &'a Vec<Structure>,
    other_substructures: &'b Vec<Structure>,
) -> (differences: Vec<ComparisonLogicalStructure<'a, 'b>>)
    requires
        partners_have_same_fields(substructures@, other_substructures@),
    ensures
        entries_match(
            differences@,
            substructure_differences(substructures@, other_substructures@),
            substructures@,
            other_substructures@,
        ),
    decreases substructures, 1nat,
{
    let ghost subs = substructures@;
    let ghost others = other_substructures@;
    let mut differences: Vec<ComparisonLogicalStructure<'a, 'b>> = Vec::new();
    let mut was_compared: Vec<bool> = no_differences(other_substructures.len());
    let mut i: usize = 0;
    while i < substructures.len()
        invariant
            i <= subs.len(),
            subs == substructures@,
            others == other_substructures@,
            partners_have_same_fields(subs, others),
            differences@.len() == i,
            forall|k: int|
                0 <= k < i ==> entry_matches(
                    #[trigger] differences@[k],
                    entry_of(subs, others, k),
                    subs,
                    others,
                ),
            was_compared@.len() == others.len(),
            forall|j: int|
                0 <= j < others.len() ==> #[trigger] was_compared@[j] == compared(
                    subs,
                    others,
                    j,
                    i as nat,
                ),
        decreases subs.len() - i,
    {
        let substructure: &'a Structure = &substructures[i];
        let mut j: usize = 0;
        while j < other_substructures.len() && !(other_substructures[j].name == substructure.name)
            invariant
                j <= others.len(),
                others == other_substructures@,
                first_named(others, substructure.name@, j as nat) == j,
            decreases others.len() - j,
        {
            j = j + 1;
        }
        proof {
            lemma_first_named(others, substructure.name@, others.len());
            lemma_first_named(others, substructure.name@, j as nat);
            if j < others.len() {
                assert(first_named(others, substructure.name@, (j + 1) as nat) == j);
                lemma_first_named_stays(others, substructure.name@, (j + 1) as nat, others.len());
            }
            assert(partner(subs, others, i as int) == j);
        }
        let ghost before = differences@;
        if j < other_substructures.len() {
            let other_structure: &'b Structure = &other_substructures[j];
            let structure_differeces: Vec<bool> = compute_structure_item_differences(
                &substructure.structure,
                &other_structure.structure,
            );
            let below: Vec<ComparisonLogicalStructure<'a, 'b>> = compare_parts(
                substructure,
                other_structure,
            );
            differences.push(
                ComparisonLogicalStructure {
                    ref_structure: Some(substructure),
                    comp_structure: Some(other_structure),
                    structure_differences: structure_differeces,
                    substructure_differences: below,
                },
            );
            was_compared.set(j, true);
        } else {
            differences.push(
                ComparisonLogicalStructure {
                    ref_structure: Some(substructure),
                    comp_structure: None,
                    structure_differences: no_differences(substructure.structure.len()),
                    substructure_differences: Vec::new(),
                },
            );
        }
        assert forall|k: int| 0 <= k < i + 1 implies entry_matches(
            #[trigger] differences@[k],
            entry_of(subs, others, k),
            subs,
            others,
        ) by {
            if k < i {
                assert(differences@[k] == before[k]);
            }
        }
        i = i + 1;
    }
    let ghost first = differences@;
    let mut j: usize = 0;
    while j < other_substructures.len()
        invariant
            j <= others.len(),
            subs == substructures@,
            others == other_substructures@,
            first.len() == subs.len(),
            forall|k: int|
                0 <= k < subs.len() ==> entry_matches(
                    #[trigger] first[k],
                    entry_of(subs, others, k),
                    subs,
                    others,
                ),
            was_compared@.len() == others.len(),
            forall|k: int|
                0 <= k < others.len() ==> #[trigger] was_compared@[k] == compared(
                    subs,
                    others,
                    k,
                    subs.len(),
                ),
            differences@.len() == subs.len() + unmatched(subs, others, j as nat).len(),
            forall|k: int| 0 <= k < subs.len() ==> differences@[k] == first[k],
            forall|k: int|
                0 <= k < unmatched(subs, others, j as nat).len() ==> entry_matches(
                    #[trigger] differences@[subs.len() + k],
                    entry_of_unmatched(others, unmatched(subs, others, j as nat)[k]),
                    subs,
                    others,
                ),
        decreases others.len() - j,
    {
        let ghost before = differences@;
        let ghost found = unmatched(subs, others, j as nat);
        if !was_compared[j] {
            let other_structure: &'b Structure = &other_substructures[j];
            differences.push(
                ComparisonLogicalStructure {
                    ref_structure: None,
                    comp_structure: Some(other_structure),
                    structure_differences: no_differences(other_structure.structure.len()),
                    substructure_differences: Vec::new(),
                },
            );
            assert forall|k: int|
                0 <= k < unmatched(subs, others, (j + 1) as nat).len() implies entry_matches(
                #[trigger] differences@[subs.len() + k],
                entry_of_unmatched(others, unmatched(subs, others, (j + 1) as nat)[k]),
                subs,
                others,
            ) by {
                if k < found.len() {
                    assert(differences@[subs.len() + k] == before[subs.len() + k]);
                    assert(unmatched(subs, others, (j + 1) as nat)[k] == found[k]);
                }
            }
        }
        j = j + 1;
    }
    proof {
        let models = substructure_differences(subs, others);
        let tail = unmatched(subs, others, others.len());
        assert(models.len() == subs.len() + tail.len());
        assert forall|k: int| 0 <= k < differences@.len() implies entry_matches(
            #[trigger] differences@[k],
            models[k],
            subs,
            others,
        ) by {
            if k < subs.len() {
                assert(differences@[k] == first[k]);
                assert(models[k] == entry_of(subs, others, k));
            } else {
                let t = k - subs.len();
                assert(differences@[subs.len() + t] == differences@[k]);
                assert(models[k] == entry_of_unmatched(others, tail[t]));
            }
        }
    }
    differences
}

/// Once a structure of the name is found among the first `from`, it stays the
/// first however many more are looked at.
pub proof fn lemma_first_named_stays(others: Seq<Structure>, name: Seq<char>, from: nat, upto: nat)
    requires
        from <= upto,
        first_named(others, name, from) < from,
    ensures
        first_named(others, name, upto) == first_named(others, name, from),
    decreases upto,
{
    if from < upto {
        lemma_first_named_stays(others, name, from, (upto - 1) as nat);
    }
}

/// The first structure named `name` is at `j` where `j` is named so and
/// nothing before it is.
pub proof fn lemma_first_named_at(others: Seq<Structure>, name: Seq<char>, upto: nat, j: int)
    requires
        0 <= j < upto <= others.len(),
        others[j].name@ == name,
        forall|h: int| 0 <= h < j ==> (#[trigger] others[h]).name@ != name,
    ensures
        first_named(others, name, upto) == j,
    decreases upto,
{
    if upto - 1 > j {
        lemma_first_named_at(others, name, (upto - 1) as nat, j);
    } else {
        lemma_first_named_absent(others, name, j as nat);
    }
}

/// Where none of the first `upto` structures is named `name`, the search
/// ends at `upto`.
pub proof fn lemma_first_named_absent(others: Seq<Structure>, name: Seq<char>, upto: nat)
    requires
        upto <= others.len(),
        forall|h: int| 0 <= h < upto ==> (#[trigger] others[h]).name@ != name,
    ensures
        first_named(others, name, upto) == upto,
    decreases upto,
{
    if upto > 0 {
        lemma_first_named_absent(others, name, (upto - 1) as nat);
    }
}

/// A structure of `others` is compared with one of the first `k` of `subs`
/// exactly where it is the partner of one of them.
pub proof fn lemma_compared(subs: Seq<Structure>, others: Seq<Structure>, j: int, k: nat)
    ensures
        compared(subs, others, j, k) <==> exists|i: int|
            0 <= i < k && #[trigger] partner(subs, others, i) == j,
    decreases k,
{
    if k > 0 {
        lemma_compared(subs, others, j, (k - 1) as nat);
        if compared(subs, others, j, k) {
            if partner(subs, others, k - 1) == j {
                assert(0 <= k - 1 < k && partner(subs, others, k - 1) == j);
            } else {
                let i = choose|i: int| 0 <= i < k - 1 && #[trigger] partner(subs, others, i) == j;
                assert(0 <= i < k && partner(subs, others, i) == j);
            }
        }
    }
}

/// Whether no two structures of `subs` have the same name.
pub open spec fn distinct_names(subs: Seq<Structure>) -> bool {
    forall|i: int, j: int|
        0 <= i < subs.len() && 0 <= j < subs.len() && i != j ==> (#[trigger] subs[i]).name@ != (
        #[trigger] subs[j]).name@
}

/// Law: the fields of a structure do not differ from themselves.
pub proof fn lemma_items_same(items: Seq<StructureItem>)
    ensures
        same_fields(items, items),
        item_differences(items, items) == all_false(items.len()),
{
    assert(item_differences(items, items) =~= all_false(items.len()));
}

/// Whether `model` says that nothing differs: it pairs two structures, marks
/// no field, and the entries below it say the same.
pub open spec fn no_difference(model: ComparisonEntry) -> bool
    decreases model,
{
    &&& model.on_ref is Some
    &&& model.on_comp is Some
    &&& forall|k: int| 0 <= k < model.flags.len() ==> !#[trigger] model.flags[k]
    &&& forall|k: int| 0 <= k < model.below.len() ==> no_difference(#[trigger] model.below[k])
}

/// Whether no two of the structures below `a` have the same name, and so at
/// every depth below them.
pub open spec fn distinct_names_below(a: Structure) -> bool
    decreases a, 0nat,
{
    match a.substructs {
        Some(r) => distinct_names_throughout(r@),
        None => true,
    }
}

/// Whether no two structures of `subs` have the same name, and so at every
/// depth below them.
pub open spec fn distinct_names_throughout(subs: Seq<Structure>) -> bool
    decreases subs, 1nat,
{
    &&& distinct_names(subs)
    &&& forall|i: int| 0 <= i < subs.len() ==> distinct_names_below(#[trigger] subs[i])
}

/// Law: where no two structures have the same name, at any depth, comparing
/// a list of structures with itself pairs each structure with itself, marks
/// no field at any depth, and reports no structure as missing on either
/// side.
pub proof fn lemma_compare_with_self(subs: Seq<Structure>)
    requires
        distinct_names_throughout(subs),
    ensures
        partners_have_same_fields(subs, subs),
        substructure_differences(subs, subs).len() == subs.len(),
        forall|i: int|
            0 <= i < subs.len() ==> (#[trigger] substructure_differences(subs, subs)[i]).on_ref
                == Some(i) && substructure_differences(subs, subs)[i].on_comp == Some(i)
                && no_difference(substructure_differences(subs, subs)[i]),
    decreases subs,
{
    let n = subs.len();
    assert forall|i: int| 0 <= i < n implies #[trigger] partner(subs, subs, i) == i by {
        lemma_first_named_at(subs, subs[i].name@, n, i);
    }
    assert forall|i: int| 0 <= i < n implies same_fields(subs[i].structure@, subs[i].structure@)
        && parts_comparable(#[trigger] subs[i], subs[i]) && forall|k: int|
        0 <= k < parts_compared(subs[i], subs[i]).len() ==> no_difference(
            #[trigger] parts_compared(subs[i], subs[i])[k],
        ) by {
        lemma_items_same(subs[i].structure@);
        assert(distinct_names_below(subs[i]));
        match subs[i].substructs {
            Some(r) => {
                lemma_compare_with_self(r@);
            },
            None => {},
        }
    }
    lemma_unmatched_none(subs, subs, n);
    assert forall|i: int| 0 <= i < n implies (#[trigger] substructure_differences(subs, subs)[i]).on_ref
        == Some(i) && substructure_differences(subs, subs)[i].on_comp == Some(i) && no_difference(
        substructure_differences(subs, subs)[i],
    ) by {
        lemma_items_same(subs[i].structure@);
        assert(partner(subs, subs, i) == i);
        assert(parts_comparable(subs[i], subs[i]));
        let entry = entry_of(subs, subs, i);
        assert(substructure_differences(subs, subs)[i] == entry);
        assert(entry.flags == all_false(subs[i].structure@.len()));
        assert(entry.below == parts_compared(subs[i], subs[i]));
        assert forall|k: int| 0 <= k < entry.below.len() implies no_difference(
            #[trigger] entry.below[k],
        ) by {
            assert(no_difference(parts_compared(subs[i], subs[i])[k]));
        }
        assert(no_difference(entry));
    }
}

/// Where each of the first `upto` structures of `others` is the partner of a
/// structure of `subs`, none of them is unmatched.
pub proof fn lemma_unmatched_none(subs: Seq<Structure>, others: Seq<Structure>, upto: nat)
    requires
        upto <= others.len(),
        upto <= subs.len(),
        forall|i: int| 0 <= i < upto ==> #[trigger] partner(subs, others, i) == i,
    ensures
        unmatched(subs, others, upto).len() == 0,
    decreases upto,
{
    if upto > 0 {
        lemma_unmatched_none(subs, others, (upto - 1) as nat);
        lemma_compared(subs, others, upto - 1, subs.len());
        assert(partner(subs, others, upto - 1) == upto - 1);
    }
}

/// Law: where `b` is `a` with structure `k` renamed to a name that no
/// structure of `a` has, and no two structures of `a` have the same name,
/// comparing `a` with `b` pairs every other structure with itself, reports
/// structure `k` of `a` as missing in `b`, and reports structure `k` of `b`,
/// last, as missing in `a`: one entry on each side, and no pair made of the
/// two.
pub proof fn lemma_compare_with_renamed(a: Seq<Structure>, b: Seq<Structure>, k: int)
    requires
        a.len() == b.len(),
        0 <= k < a.len(),
        distinct_names(a),
        forall|j: int| 0 <= j < a.len() && j != k ==> (#[trigger] b[j]).name@ == a[j].name@,
        forall|j: int| 0 <= j < a.len() ==> (#[trigger] a[j]).name@ != b[k].name@,
    ensures
        substructure_differences(a, b).len() == a.len() + 1,
        forall|i: int|
            0 <= i < a.len() && i != k ==> (#[trigger] substructure_differences(a, b)[i]).on_ref
                == Some(i) && substructure_differences(a, b)[i].on_comp == Some(i),
        substructure_differences(a, b)[k] == one_sided_entry(a, k, true),
        substructure_differences(a, b)[a.len() as int] == one_sided_entry(b, k, false),
{
    let n = a.len();
    assert forall|i: int| 0 <= i < n && i != k implies #[trigger] partner(a, b, i) == i by {
        assert forall|h: int| 0 <= h < i implies (#[trigger] b[h]).name@ != a[i].name@ by {
            if h != k {
                assert(b[h].name@ == a[h].name@);
            } else {
                assert(a[i].name@ != b[k].name@);
            }
        }
        lemma_first_named_at(b, a[i].name@, n, i);
    }
    assert(partner(a, b, k) == n) by {
        assert forall|h: int| 0 <= h < n implies (#[trigger] b[h]).name@ != a[k].name@ by {
            if h != k {
                assert(b[h].name@ == a[h].name@);
            } else {
                assert(a[k].name@ != b[k].name@);
            }
        }
        lemma_first_named_absent(b, a[k].name@, n);
    }
    lemma_unmatched_one(a, b, k, n);
    let tail = unmatched(a, b, n);
    assert(tail =~= seq![k]);
    let models = substructure_differences(a, b);
    assert(models[n as int] == entry_of_unmatched(b, tail[0]));
}

/// Where every structure of `a` but structure `k` has itself as partner in
/// `b` and structure `k` has none, the unmatched among the first `upto`
/// structures of `b` are structure `k` alone, once it is among them.
pub proof fn lemma_unmatched_one(a: Seq<Structure>, b: Seq<Structure>, k: int, upto: nat)
    requires
        a.len() == b.len(),
        0 <= k < a.len(),
        upto <= a.len(),
        forall|i: int| 0 <= i < a.len() && i != k ==> #[trigger] partner(a, b, i) == i,
        partner(a, b, k) == a.len(),
    ensures
        unmatched(a, b, upto) == if upto <= k {
            Seq::<int>::empty()
        } else {
            seq![k]
        },
    decreases upto,
{
    if upto > 0 {
        lemma_unmatched_one(a, b, k, (upto - 1) as nat);
        lemma_compared(a, b, upto - 1, a.len());
        if upto - 1 == k {
            assert(!compared(a, b, k, a.len()));
            assert(unmatched(a, b, upto) =~= seq![k]);
        } else {
            assert(partner(a, b, upto - 1) == upto - 1);
            assert(compared(a, b, upto - 1, a.len()));
        }
    }
}

} // verus!
