//! The table of named types. It holds each name once and keeps its entries
//! in the order of a dictionary, whatever the order in which they came.

use vstd::prelude::*;
use crate::text::{
    lemma_precedes_irreflexive, lemma_precedes_total, lemma_precedes_transitive, precedes,
    same_text, text_precedes,
};
use crate::typ::{defs_view, TypeDef, TypeDefView};

verus! {

/// Whether the entries stand in the strict order of their names.
pub open spec fn ascending(defs: Seq<TypeDefView>) -> bool {
    forall|i: int, j: int|
        0 <= i < j < defs.len() ==> precedes((#[trigger] defs[i]).name, (#[trigger] defs[j]).name)
}

/// Whether one of the entries has this name.
pub open spec fn has_def(defs: Seq<TypeDefView>, name: Seq<char>) -> bool {
    exists|i: int| 0 <= i < defs.len() && (#[trigger] defs[i]).name == name
}

/// How many entries at the front have names that come before this name.
pub open spec fn slot(defs: Seq<TypeDefView>, name: Seq<char>) -> int
    decreases defs.len(),
{
    if defs.len() == 0 || !precedes(defs[0].name, name) {
        0
    } else {
        1 + slot(defs.drop_first(), name)
    }
}

/// The entries with one more, put where its name belongs.
pub open spec fn placed(defs: Seq<TypeDefView>, def: TypeDefView) -> Seq<TypeDefView> {
    defs.insert(slot(defs, def.name), def)
}

/// The slot of a name is where the names stop coming before it.
pub proof fn lemma_slot_is(defs: Seq<TypeDefView>, name: Seq<char>, at: int)
    requires
        0 <= at <= defs.len(),
        forall|j: int| 0 <= j < at ==> precedes((#[trigger] defs[j]).name, name),
        at < defs.len() ==> !precedes(defs[at].name, name),
    ensures
        slot(defs, name) == at,
    decreases at,
{
    if at > 0 {
        let rest = defs.drop_first();
        assert(precedes(defs[0].name, name));
        assert forall|j: int| 0 <= j < at - 1 implies precedes((#[trigger] rest[j]).name, name) by {
            assert(rest[j] == defs[j + 1]);
        }
        if at - 1 < rest.len() {
            assert(rest[at - 1] == defs[at]);
        }
        lemma_slot_is(rest, name, at - 1);
    }
}

/// The slot of a name lies within the entries; every entry before it has a
/// name that comes before the name, and the entry at it has not.
pub proof fn lemma_slot_bounds(defs: Seq<TypeDefView>, name: Seq<char>)
    ensures
        0 <= slot(defs, name) <= defs.len(),
        forall|j: int| 0 <= j < slot(defs, name) ==> precedes((#[trigger] defs[j]).name, name),
        slot(defs, name) < defs.len() ==> !precedes(defs[slot(defs, name)].name, name),
    decreases defs.len(),
{
    if !(defs.len() == 0 || !precedes(defs[0].name, name)) {
        let rest = defs.drop_first();
        lemma_slot_bounds(rest, name);
        assert forall|j: int| 0 <= j < slot(defs, name) implies precedes(
            (#[trigger] defs[j]).name,
            name,
        ) by {
            if j > 0 {
                assert(rest[j - 1] == defs[j]);
            }
        }
        if slot(defs, name) < defs.len() {
            assert(rest[slot(rest, name)] == defs[slot(defs, name)]);
        }
    }
}

/// Putting an entry with a new name where it belongs keeps the order, and
/// adds its name to the names of the table and no other.
pub proof fn lemma_placed(defs: Seq<TypeDefView>, def: TypeDefView)
    requires
        ascending(defs),
        !has_def(defs, def.name),
    ensures
        ascending(placed(defs, def)),
        placed(defs, def).len() == defs.len() + 1,
        forall|name: Seq<char>|
            has_def(placed(defs, def), name) <==> has_def(defs, name) || name == def.name,
{
    let at = slot(defs, def.name);
    let after = placed(defs, def);
    lemma_slot_bounds(defs, def.name);
    assert forall|j: int| at <= j < defs.len() implies precedes(
        def.name,
        (#[trigger] defs[j]).name,
    ) by {
        assert(defs[at].name != def.name);
        lemma_precedes_total(defs[at].name, def.name);
        if j > at {
            assert(precedes(defs[at].name, defs[j].name));
            lemma_precedes_transitive(def.name, defs[at].name, defs[j].name);
        }
    }
    assert forall|i: int, j: int| 0 <= i < j < after.len() implies precedes(
        (#[trigger] after[i]).name,
        (#[trigger] after[j]).name,
    ) by {
        if j < at {
            assert(after[i] == defs[i] && after[j] == defs[j]);
        } else if j == at {
            assert(after[i] == defs[i]);
        } else if i < at {
            assert(after[i] == defs[i] && after[j] == defs[j - 1]);
            if i < j - 1 {
            } else {
                assert(false);
            }
        } else if i == at {
            assert(after[j] == defs[j - 1]);
        } else {
            assert(after[i] == defs[i - 1] && after[j] == defs[j - 1]);
        }
    }
    assert forall|name: Seq<char>|
        has_def(after, name) <==> has_def(defs, name) || name == def.name by {
        if has_def(after, name) {
            let i = choose|i: int| 0 <= i < after.len() && (#[trigger] after[i]).name == name;
            if i < at {
                assert(defs[i].name == name);
            } else if i > at {
                assert(defs[i - 1].name == name);
            }
        }
        if has_def(defs, name) {
            let i = choose|i: int| 0 <= i < defs.len() && (#[trigger] defs[i]).name == name;
            if i < at {
                assert(after[i].name == name);
            } else {
                assert(after[i + 1].name == name);
            }
        }
        if name == def.name {
            assert(after[at].name == name);
        }
    }
}

/// No two entries of an ordered table have the same name.
pub proof fn lemma_ascending_is_unique(defs: Seq<TypeDefView>)
    requires
        ascending(defs),
    ensures
        forall|i: int, j: int|
            0 <= i < j < defs.len() ==> (#[trigger] defs[i]).name != (#[trigger] defs[j]).name,
{
    assert forall|i: int, j: int| 0 <= i < j < defs.len() implies (#[trigger] defs[i]).name != (
    #[trigger] defs[j]).name by {
        lemma_precedes_irreflexive(defs[i].name);
    }
}

/// The named types of a document, each name once, in the order of a
/// dictionary.
#[derive(Debug, PartialEq)]
pub struct TypeTable {
    entries: Vec<TypeDef>,
}

impl View for TypeTable {
    type V = Seq<TypeDefView>;

    closed spec fn view(&self) -> Seq<TypeDefView> {
        defs_view(self.entries@)
    }
}

impl TypeTable {
    #[verifier::type_invariant]
    pub closed spec fn ordered(&self) -> bool {
        ascending(self@)
    }

    /// The table without entries.
    pub fn new() -> (table: TypeTable)
        ensures
            table@ == Seq::<TypeDefView>::empty(),
    {
        let table = TypeTable { entries: Vec::new() };
        assert(table@ =~= Seq::<TypeDefView>::empty());
        table
    }

    /// The entries, in the order of their names.
    pub fn entries(&self) -> (entries: &Vec<TypeDef>)
        ensures
            defs_view(entries@) == self@,
            ascending(self@),
    {
        proof {
            use_type_invariant(self);
        }
        &self.entries
    }

    /// How many entries the table has.
    pub fn len(&self) -> (len: usize)
        ensures
            len == self@.len(),
    {
        self.entries.len()
    }

    /// The table with one more entry, put where its name belongs. Where the
    /// table has an entry of that name already, the table comes back as it
    /// was, and the entry with it.
    pub fn insert(self, def: TypeDef) -> (after: (TypeTable, Option<TypeDef>))
        ensures
            ascending(self@),
            ascending(after.0@),
            match after.1 {
                None => !has_def(self@, def@.name) && after.0@ == placed(self@, def@),
                Some(back) => has_def(self@, def@.name) && after.0@ == self@ && back == def,
            },
    {
        proof {
            use_type_invariant(&self);
        }
        let ghost views = self@;
        let mut at: usize = 0;
        while at < self.entries.len() && text_precedes(
            self.entries[at].name.as_str(),
            def.name.as_str(),
        )
            invariant
                at <= self.entries@.len(),
                views == defs_view(self.entries@),
                forall|j: int| 0 <= j < at ==> precedes((#[trigger] views[j]).name, def@.name),
            decreases self.entries@.len() - at,
        {
            assert(views[at as int] == self.entries@[at as int]@);
            at += 1;
        }
        proof {
            if at < self.entries@.len() {
                assert(views[at as int] == self.entries@[at as int]@);
            }
            lemma_slot_is(views, def@.name, at as int);
        }
        if at < self.entries.len() && same_text(
            self.entries[at].name.as_str(),
            def.name.as_str(),
        ) {
            return (self, Some(def));
        }
        proof {
            assert(!has_def(views, def@.name)) by {
                if has_def(views, def@.name) {
                    let i = choose|i: int|
                        0 <= i < views.len() && (#[trigger] views[i]).name == def@.name;
                    lemma_precedes_irreflexive(def@.name);
                    if i > at {
                        assert(precedes(views[at as int].name, views[i].name));
                    }
                }
            }
            lemma_placed(views, def@);
            assert(defs_view(self.entries@.insert(at as int, def)) =~= placed(views, def@));
        }
        let TypeTable { mut entries } = self;
        entries.insert(at, def);
        (TypeTable { entries }, None)
    }
}

} // verus!
