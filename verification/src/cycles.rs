//! References among the named types of a table, and the types that they
//! can be followed from without ever coming back.
//!
//! A named type is grounded when it lies in a set of named types that is
//! closed under reference and can be ranked so that every reference leads to
//! a lower rank. A type on a cycle of references, or one that leads into
//! such a cycle, is in no such set.

use vstd::prelude::*;
use crate::text::same_text;
use crate::typ::{defs_view, fields_view, Field, FieldView, Typ, TypView, TypeDef, TypeDefView};

verus! {

/// Whether a type mentions the named type of this name.
pub open spec fn refers_to(t: TypView, name: Seq<char>) -> bool
    decreases t,
{
    match t {
        TypView::Named(n) => n == name,
        TypView::Array(elem) => refers_to(*elem, name),
        TypView::Struct(fields) => exists|i: int|
            0 <= i < fields.len() && refers_to((#[trigger] fields[i]).typ, name),
        _ => false,
    }
}

/// Whether a set of entries of a table is closed under reference, with
/// ranks that fall along every reference.
pub open spec fn well_founded(defs: Seq<TypeDefView>, inside: Seq<bool>, rank: Seq<nat>) -> bool {
    &&& inside.len() == defs.len()
    &&& rank.len() == defs.len()
    &&& forall|a: int, b: int|
        0 <= a < defs.len() && 0 <= b < defs.len() && inside[a] && refers_to(
            (#[trigger] defs[a]).typ,
            (#[trigger] defs[b]).name,
        ) ==> inside[b] && rank[b] < rank[a]
}

/// Whether an entry of a table is grounded.
pub open spec fn grounded(defs: Seq<TypeDefView>, i: int) -> bool {
    exists|inside: Seq<bool>, rank: Seq<nat>|
        #[trigger] well_founded(defs, inside, rank) && 0 <= i < defs.len() && inside[i]
}

/// Whether an entry is the first of a table that is not grounded.
pub open spec fn is_first_ungrounded(defs: Seq<TypeDefView>, i: int) -> bool {
    &&& 0 <= i < defs.len()
    &&& !grounded(defs, i)
    &&& forall|k: int| 0 <= k < i ==> grounded(defs, k)
}

/// The first entry of a table that is not grounded, if there is one.
pub open spec fn first_ungrounded(defs: Seq<TypeDefView>) -> Option<int> {
    if exists|i: int| is_first_ungrounded(defs, i) {
        Some(choose|i: int| is_first_ungrounded(defs, i))
    } else {
        None
    }
}

/// Whether every named type that a type mentions is marked.
pub open spec fn refs_marked(t: TypView, defs: Seq<TypeDefView>, marked: Seq<bool>) -> bool {
    forall|j: int| 0 <= j < defs.len() && refers_to(t, (#[trigger] defs[j]).name) ==> marked[j]
}

/// How many entries are not marked.
pub open spec fn unmarked(marked: Seq<bool>) -> nat
    decreases marked.len(),
{
    if marked.len() == 0 {
        0
    } else {
        unmarked(marked.drop_last()) + if marked.last() {
            0nat
        } else {
            1nat
        }
    }
}

/// Marking an entry that was not marked leaves one fewer unmarked.
pub proof fn lemma_mark_one(marked: Seq<bool>, i: int)
    requires
        0 <= i < marked.len(),
        !marked[i],
    ensures
        unmarked(marked) == unmarked(marked.update(i, true)) + 1,
    decreases marked.len(),
{
    let after = marked.update(i, true);
    if i == marked.len() - 1 {
        assert(after.drop_last() =~= marked.drop_last());
    } else {
        lemma_mark_one(marked.drop_last(), i);
        assert(after.drop_last() =~= marked.drop_last().update(i, true));
    }
}

/// There is at most one first ungrounded entry.
pub proof fn lemma_first_ungrounded_is(defs: Seq<TypeDefView>, i: int)
    requires
        is_first_ungrounded(defs, i),
    ensures
        first_ungrounded(defs) == Some(i),
{
    let j = choose|j: int| is_first_ungrounded(defs, j);
    if j < i {
        assert(grounded(defs, j));
    } else if i < j {
        assert(grounded(defs, i));
    }
}

/// Where every entry is grounded, none is the first that is not.
pub proof fn lemma_all_grounded(defs: Seq<TypeDefView>)
    requires
        forall|i: int| 0 <= i < defs.len() ==> grounded(defs, i),
    ensures
        first_ungrounded(defs) is None,
{
}

/// A table in which one set holds every entry and is well founded has no
/// cycle of references: every entry is grounded, and none is reported.
pub proof fn lemma_ranked_table_is_grounded(defs: Seq<TypeDefView>, rank: Seq<nat>)
    requires
        well_founded(defs, Seq::new(defs.len(), |i: int| true), rank),
    ensures
        first_ungrounded(defs) is None,
{
    let all = Seq::new(defs.len(), |i: int| true);
    assert forall|i: int| 0 <= i < defs.len() implies grounded(defs, i) by {
        assert(well_founded(defs, all, rank) && all[i]);
    }
}

/// An entry that mentions itself is not grounded.
pub proof fn lemma_self_reference_is_ungrounded(defs: Seq<TypeDefView>, i: int)
    requires
        0 <= i < defs.len(),
        refers_to(defs[i].typ, defs[i].name),
    ensures
        !grounded(defs, i),
{
    if grounded(defs, i) {
        let (inside, rank) = choose|inside: Seq<bool>, rank: Seq<nat>|
            #[trigger] well_founded(defs, inside, rank) && 0 <= i < defs.len() && inside[i];
        assert(rank[i] < rank[i]);
    }
}

/// Where no unmarked entry has all its references marked, every entry of a
/// well-founded set is marked.
proof fn lemma_grounded_is_marked(
    defs: Seq<TypeDefView>,
    marked: Seq<bool>,
    inside: Seq<bool>,
    rank: Seq<nat>,
    a: int,
)
    requires
        marked.len() == defs.len(),
        well_founded(defs, inside, rank),
        0 <= a < defs.len(),
        inside[a],
        forall|k: int|
            0 <= k < defs.len() && !marked[k] ==> !refs_marked(
                (#[trigger] defs[k]).typ,
                defs,
                marked,
            ),
    ensures
        marked[a],
    decreases rank[a],
{
    if !marked[a] {
        assert(!refs_marked(defs[a].typ, defs, marked));
        let j = choose|j: int|
            0 <= j < defs.len() && refers_to(defs[a].typ, (#[trigger] defs[j]).name) && !marked[j];
        assert(inside[j] && rank[j] < rank[a]);
        lemma_grounded_is_marked(defs, marked, inside, rank, j);
    }
}

/// Whether every entry of this name is marked.
fn name_marked(name: &str, defs: &Vec<TypeDef>, marked: &Vec<bool>) -> (all: bool)
    requires
        marked@.len() == defs@.len(),
    ensures
        all == refs_marked(TypView::Named(name@), defs_view(defs@), marked@),
{
    let ghost views = defs_view(defs@);
    let mut j: usize = 0;
    while j < defs.len()
        invariant
            j <= defs.len(),
            marked@.len() == defs@.len(),
            views == defs_view(defs@),
            forall|k: int| 0 <= k < j && name@ == (#[trigger] views[k]).name ==> marked@[k],
        decreases defs.len() - j,
    {
        assert(views[j as int] == defs@[j as int]@);
        if same_text(defs[j].name.as_str(), name) && !marked[j] {
            assert(refers_to(TypView::Named(name@), views[j as int].name));
            return false;
        }
        j += 1;
    }
    true
}

/// Whether every named type that a type mentions is marked.
fn type_marked(typ: &Typ, defs: &Vec<TypeDef>, marked: &Vec<bool>) -> (all: bool)
    requires
        marked@.len() == defs@.len(),
    ensures
        all == refs_marked(typ@, defs_view(defs@), marked@),
    decreases typ,
{
    let ghost views = defs_view(defs@);
    match typ {
        Typ::Named(name) => name_marked(name.as_str(), defs, marked),
        Typ::Array(elem) => {
            let all = type_marked(elem, defs, marked);
            assert(forall|name: Seq<char>| refers_to(typ@, name) == refers_to(elem@, name));
            all
        },
        Typ::Struct(fields) => {
            let ghost members = fields_view(fields@);
            proof {
                crate::typ::lemma_struct_view(*fields);
            }
            let mut i: usize = 0;
            while i < fields.len()
                invariant
                    i <= fields.len(),
                    marked@.len() == defs@.len(),
                    views == defs_view(defs@),
                    members == fields_view(fields@),
                    typ@ == TypView::Struct(members),
                    *typ == Typ::Struct(*fields),
                    forall|k: int|
                        0 <= k < i ==> refs_marked((#[trigger] members[k]).typ, views, marked@),
                decreases fields.len() - i,
            {
                proof {
                    assert(typ is Struct);
                    assert(typ->Struct_0 == *fields);
                    assert(decreases_to!(*typ => typ->Struct_0));
                    assert(decreases_to!(*fields => fields@[i as int]));
                    assert(decreases_to!(fields@[i as int] => fields@[i as int].typ));
                    assert(members[i as int] == fields@[i as int]@);
                }
                if !type_marked(&fields[i].typ, defs, marked) {
                    proof {
                        let j = choose|j: int|
                            0 <= j < views.len() && refers_to(
                                members[i as int].typ,
                                (#[trigger] views[j]).name,
                            ) && !marked@[j];
                        assert(refers_to(typ@, views[j].name));
                    }
                    return false;
                }
                i += 1;
            }
            proof {
                assert forall|j: int|
                    0 <= j < views.len() && refers_to(typ@, (#[trigger] views[j]).name) implies marked@[j] by {
                    let k = choose|k: int|
                        0 <= k < members.len() && refers_to(
                            (#[trigger] members[k]).typ,
                            views[j].name,
                        );
                    assert(refs_marked(members[k].typ, views, marked@));
                }
            }
            true
        },
        _ => true,
    }
}

/// Marks the grounded entries of a table.
pub fn mark_grounded(defs: &Vec<TypeDef>) -> (marked: Vec<bool>)
    ensures
        marked@.len() == defs@.len(),
        forall|i: int| 0 <= i < defs@.len() ==> marked@[i] == grounded(defs_view(defs@), i),
{
    let ghost views = defs_view(defs@);
    let n = defs.len();
    let mut marked: Vec<bool> = Vec::new();
    while marked.len() < n
        invariant
            n == defs@.len(),
            marked@.len() <= n,
            forall|i: int| 0 <= i < marked@.len() ==> !marked@[i],
        decreases n - marked@.len(),
    {
        marked.push(false);
    }
    let ghost mut rank: Seq<nat> = Seq::new(n as nat, |i: int| 0nat);
    let ghost mut clock: nat = 0;
    let mut stable = false;
    while !stable
        invariant
            n == defs@.len(),
            views == defs_view(defs@),
            marked@.len() == n,
            well_founded(views, marked@, rank),
            forall|a: int| 0 <= a < n && marked@[a] ==> rank[a] <= clock,
            stable ==> forall|k: int|
                0 <= k < n && !marked@[k] ==> !refs_marked(
                    (#[trigger] views[k]).typ,
                    views,
                    marked@,
                ),
        decreases unmarked(marked@), if stable { 0nat } else { 1nat },
    {
        let ghost at_start = marked@;
        let mut changed = false;
        let mut i: usize = 0;
        while i < n
            invariant
                i <= n,
                n == defs@.len(),
                views == defs_view(defs@),
                marked@.len() == n,
                well_founded(views, marked@, rank),
                forall|a: int| 0 <= a < n && marked@[a] ==> rank[a] <= clock,
                !changed ==> marked@ == at_start,
                changed ==> unmarked(marked@) < unmarked(at_start),
                !changed ==> forall|k: int|
                    0 <= k < i && !marked@[k] ==> !refs_marked(
                        (#[trigger] views[k]).typ,
                        views,
                        marked@,
                    ),
            decreases n - i,
        {
            assert(views[i as int] == defs@[i as int]@);
            if !marked[i] && type_marked(&defs[i].typ, defs, &marked) {
                let ghost before = marked@;
                let ghost old_rank = rank;
                proof {
                    lemma_mark_one(before, i as int);
                    clock = clock + 1;
                    rank = rank.update(i as int, clock);
                }
                marked.set(i, true);
                changed = true;
                proof {
                    assert forall|a: int, b: int|
                        0 <= a < views.len() && 0 <= b < views.len() && marked@[a] && refers_to(
                            (#[trigger] views[a]).typ,
                            (#[trigger] views[b]).name,
                        ) implies marked@[b] && rank[b] < rank[a] by {
                        if a == i as int {
                            assert(before[b]);
                            assert(old_rank[b] <= clock - 1);
                        } else {
                            assert(before[a]);
                            assert(before[b] && old_rank[b] < old_rank[a]);
                        }
                    }
                }
            }
            i += 1;
        }
        stable = !changed;
    }
    proof {
        assert forall|i: int| 0 <= i < defs@.len() implies marked@[i] == grounded(views, i) by {
            if marked@[i] {
                assert(well_founded(views, marked@, rank) && marked@[i]);
            }
            if grounded(views, i) {
                let (inside, ranks) = choose|inside: Seq<bool>, ranks: Seq<nat>|
                    #[trigger] well_founded(views, inside, ranks) && 0 <= i < views.len()
                        && inside[i];
                lemma_grounded_is_marked(views, marked@, inside, ranks, i);
            }
        }
    }
    marked
}

/// The first entry of a table that is not grounded, if there is one.
pub fn find_cycle(defs: &Vec<TypeDef>) -> (found: Option<usize>)
    ensures
        match found {
            Some(i) => first_ungrounded(defs_view(defs@)) == Some(i as int),
            None => first_ungrounded(defs_view(defs@)) is None,
        },
{
    let ghost views = defs_view(defs@);
    let marked = mark_grounded(defs);
    let mut i: usize = 0;
    while i < marked.len()
        invariant
            i <= marked@.len(),
            marked@.len() == defs@.len(),
            views == defs_view(defs@),
            forall|k: int| 0 <= k < defs@.len() ==> #[trigger] marked@[k] == grounded(views, k),
            forall|k: int| 0 <= k < i ==> marked@[k],
        decreases marked.len() - i,
    {
        if !marked[i] {
            proof {
                assert(marked@[i as int] == grounded(views, i as int));
                assert forall|k: int| 0 <= k < i implies grounded(views, k) by {
                    assert(marked@[k] == grounded(views, k));
                }
                lemma_first_ungrounded_is(views, i as int);
            }
            return Some(i);
        }
        i += 1;
    }
    proof {
        assert forall|k: int| 0 <= k < views.len() implies grounded(views, k) by {
            assert(marked@[k] == grounded(views, k));
        }
        lemma_all_grounded(views);
    }
    None
}

} // verus!
