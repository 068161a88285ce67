//! Lists of named entries, read as maps: a name stands for the first entry
//! that carries it.

use vstd::prelude::*;

verus! {

/// The value of the first entry called `name`, if there is one.
pub open spec fn first_named<V>(entries: Seq<(Seq<char>, V)>, name: Seq<char>) -> Option<V>
    decreases entries.len(),
{
    if entries.len() == 0 {
        None
    } else if entries[0].0 == name {
        Some(entries[0].1)
    } else {
        first_named(entries.subrange(1, entries.len() as int), name)
    }
}

/// An entry is found where the first one with its name stands: if no entry
/// before `at` has the name and the entry at `at` has it, that entry's value
/// is found; if no entry at all has it, nothing is found.
pub proof fn lemma_first_named<V>(entries: Seq<(Seq<char>, V)>, name: Seq<char>, at: int)
    requires
        0 <= at <= entries.len(),
        forall|j: int| 0 <= j < at ==> (#[trigger] entries[j]).0 != name,
        at < entries.len() ==> entries[at].0 == name,
    ensures
        first_named(entries, name) == if at < entries.len() {
            Some(entries[at].1)
        } else {
            None::<V>
        },
    decreases entries.len(),
{
    if entries.len() == 0 {
    } else if at == 0 {
    } else {
        let rest = entries.subrange(1, entries.len() as int);
        assert(entries[0].0 != name);
        assert forall|j: int| 0 <= j < at - 1 implies (#[trigger] rest[j]).0 != name by {
            assert(rest[j] == entries[j + 1]);
        }
        lemma_first_named(rest, name, at - 1);
    }
}

/// An entry that is found stands somewhere: where a name stands for a value,
/// the place this gives holds an entry of that name.
pub proof fn lemma_named_entry_stands<V>(entries: Seq<(Seq<char>, V)>, name: Seq<char>) -> (at: int)
    requires
        first_named(entries, name) is Some,
    ensures
        0 <= at < entries.len(),
        entries[at].0 == name,
    decreases entries.len(),
{
    if entries[0].0 == name {
        0
    } else {
        let rest = entries.subrange(1, entries.len() as int);
        let at = lemma_named_entry_stands(rest, name);
        assert(rest[at] == entries[at + 1]);
        at + 1
    }
}

/// Taking out an entry of another name leaves a name with what it stood
/// for.
pub proof fn lemma_named_without_another<V>(entries: Seq<(Seq<char>, V)>, name: Seq<char>, at: int)
    requires
        0 <= at < entries.len(),
        entries[at].0 != name,
    ensures
        first_named(entries.remove(at), name) == first_named(entries, name),
    decreases entries.len(),
{
    let rest = entries.subrange(1, entries.len() as int);
    let without = entries.remove(at);
    if at == 0 {
        assert(without =~= rest);
    } else {
        assert(without[0] == entries[0]);
        assert(without.subrange(1, without.len() as int) =~= rest.remove(at - 1));
        if entries[0].0 != name {
            assert(rest[at - 1] == entries[at]);
            lemma_named_without_another(rest, name, at - 1);
        }
    }
}

/// Where as many names as there are entries, each different from the others,
/// all stand for an entry, every entry has one of the names.
pub proof fn lemma_names_cover_entries<V>(names: Seq<Seq<char>>, entries: Seq<(Seq<char>, V)>)
    requires
        names.len() == entries.len(),
        forall|i: int, j: int| 0 <= i < j < names.len() ==> #[trigger] names[i] != #[trigger] names[j],
        forall|i: int| 0 <= i < names.len() ==> first_named(entries, #[trigger] names[i]) is Some,
    ensures
        forall|k: int|
            0 <= k < entries.len() ==> exists|i: int| 0 <= i < names.len() && #[trigger] names[i]
                == (#[trigger] entries[k]).0,
    decreases names.len(),
{
    if names.len() > 0 {
        let last = names.len() - 1;
        let earlier = names.drop_last();
        let at = lemma_named_entry_stands(entries, names[last]);
        let others = entries.remove(at);
        assert forall|i: int| 0 <= i < earlier.len() implies first_named(others, #[trigger] earlier[i])
            is Some by {
            assert(earlier[i] == names[i]);
            assert(names[i] != names[last]);
            lemma_named_without_another(entries, names[i], at);
        }
        assert forall|i: int, j: int| 0 <= i < j < earlier.len() implies #[trigger] earlier[i]
            != #[trigger] earlier[j] by {
            assert(earlier[i] == names[i] && earlier[j] == names[j]);
        }
        lemma_names_cover_entries(earlier, others);
        assert forall|k: int| 0 <= k < entries.len() implies exists|i: int|
            0 <= i < names.len() && #[trigger] names[i] == (#[trigger] entries[k]).0 by {
            if k == at {
                assert(names[last] == entries[k].0);
            } else {
                let moved = if k < at {
                    k
                } else {
                    k - 1
                };
                assert(others[moved] == entries[k]);
                let i = choose|i: int| 0 <= i < earlier.len() && #[trigger] earlier[i] == others[moved].0;
                assert(names[i] == entries[k].0);
            }
        }
    }
}

/// The values of all entries called `name`, in the order the entries stand
/// in.
pub open spec fn all_named<V>(entries: Seq<(Seq<char>, V)>, name: Seq<char>) -> Seq<V>
    decreases entries.len(),
{
    if entries.len() == 0 {
        Seq::empty()
    } else if entries.last().0 == name {
        all_named(entries.drop_last(), name).push(entries.last().1)
    } else {
        all_named(entries.drop_last(), name)
    }
}

} // verus!
