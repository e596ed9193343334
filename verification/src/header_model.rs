//! What a header set is, as mathematics: a sequence of name and value pairs
//! in which names that differ only in the case of their ASCII letters are
//! one name. The functions here say what it means to look a name up, to
//! write a value and to take a header out; the laws below them say how these
//! go together.

use vstd::prelude::*;

verus! {

/// The entries of a header set, in order, each a name and its value.
pub type Entries = Seq<(Seq<char>, Seq<char>)>;

/// A character with the ASCII capitals folded onto their small letters.
pub open spec fn fold(c: char) -> char {
    if 'A' <= c && c <= 'Z' {
        ((c as u8) + 32) as char
    } else {
        c
    }
}

/// Two header names are the same name when they differ at most in the case
/// of their ASCII letters.
pub open spec fn same_name(a: Seq<char>, b: Seq<char>) -> bool {
    &&& a.len() == b.len()
    &&& forall|i: int| #![auto] 0 <= i < a.len() ==> fold(a[i]) == fold(b[i])
}

/// No two entries carry the same name.
pub open spec fn distinct_names(entries: Entries) -> bool {
    forall|i: int, j: int|
        #![trigger entries[i], entries[j]]
        0 <= i < j < entries.len() ==> !same_name(entries[i].0, entries[j].0)
}

/// Some entry carries `name`.
pub open spec fn holds(entries: Entries, name: Seq<char>) -> bool {
    exists|i: int| 0 <= i < entries.len() && same_name(#[trigger] entries[i].0, name)
}

/// Entry `i` is the first one that carries `name`.
pub open spec fn first_at(entries: Entries, name: Seq<char>, i: int) -> bool {
    &&& 0 <= i < entries.len()
    &&& same_name(entries[i].0, name)
    &&& forall|j: int| 0 <= j < i ==> !same_name(#[trigger] entries[j].0, name)
}

/// The place of the first entry that carries `name`, if any does.
pub open spec fn position(entries: Entries, name: Seq<char>) -> Option<int> {
    if exists|i: int| first_at(entries, name, i) {
        Some(choose|i: int| first_at(entries, name, i))
    } else {
        None
    }
}

/// The value that `name` maps to.
pub open spec fn lookup(entries: Entries, name: Seq<char>) -> Option<Seq<char>> {
    match position(entries, name) {
        Some(i) => Some(entries[i].1),
        None => None,
    }
}

/// The entries after `value` was written for `name`: a name that is already
/// there keeps its place and spelling and takes the new value, a new name
/// goes to the end.
pub open spec fn appended(entries: Entries, name: Seq<char>, value: Seq<char>) -> Entries {
    match position(entries, name) {
        Some(i) => entries.update(i, (entries[i].0, value)),
        None => entries.push((name, value)),
    }
}

/// The entries without the one that carries `name`; the others keep their
/// order.
pub open spec fn deleted(entries: Entries, name: Seq<char>) -> Entries {
    match position(entries, name) {
        Some(i) => entries.remove(i),
        None => entries,
    }
}

/// Names are the same name in a reflexive, symmetric and transitive way.
pub proof fn lemma_same_name_equivalence(a: Seq<char>, b: Seq<char>, c: Seq<char>)
    ensures
        same_name(a, a),
        same_name(a, b) ==> same_name(b, a),
        same_name(a, b) && same_name(b, c) ==> same_name(a, c),
{
}

/// The first entry that carries a name is the one that `position` gives.
pub proof fn lemma_position_is_first(entries: Entries, name: Seq<char>, i: int)
    requires
        first_at(entries, name, i),
    ensures
        position(entries, name) == Some(i),
{
}

/// Where no entry carries `name`, `position` gives nothing.
pub proof fn lemma_position_none(entries: Entries, name: Seq<char>)
    requires
        forall|j: int| 0 <= j < entries.len() ==> !same_name(#[trigger] entries[j].0, name),
    ensures
        position(entries, name) is None,
{
}

/// Among the entries before `j` that carry `name`, one is the first.
proof fn lemma_first_exists(entries: Entries, name: Seq<char>, j: int)
    requires
        0 <= j < entries.len(),
        same_name(entries[j].0, name),
    ensures
        exists|i: int| first_at(entries, name, i),
    decreases j,
{
    if forall|k: int| 0 <= k < j ==> !same_name(#[trigger] entries[k].0, name) {
        assert(first_at(entries, name, j));
    } else {
        let k = choose|k: int| 0 <= k < j && same_name(#[trigger] entries[k].0, name);
        lemma_first_exists(entries, name, k);
    }
}

/// What `position` says of its result, whichever it is: a place is that of
/// the first entry that carries the name, and none means that no entry does.
pub proof fn lemma_position(entries: Entries, name: Seq<char>)
    ensures
        match position(entries, name) {
            Some(i) => first_at(entries, name, i),
            None => forall|j: int|
                0 <= j < entries.len() ==> !same_name(#[trigger] entries[j].0, name),
        },
        position(entries, name) is Some <==> holds(entries, name),
{
    if position(entries, name) is None {
        assert forall|j: int| 0 <= j < entries.len() implies !same_name(
            #[trigger] entries[j].0,
            name,
        ) by {
            if same_name(entries[j].0, name) {
                lemma_first_exists(entries, name, j);
            }
        }
    }
}

/// A header is found under every spelling of its name.
pub proof fn lemma_lookup_ignores_case(entries: Entries, name: Seq<char>, other: Seq<char>)
    requires
        same_name(name, other),
    ensures
        position(entries, name) == position(entries, other),
        lookup(entries, name) == lookup(entries, other),
        holds(entries, name) == holds(entries, other),
{
    lemma_position(entries, name);
    lemma_position(entries, other);
    assert forall|j: int| 0 <= j < entries.len() implies same_name(
        #[trigger] entries[j].0,
        name,
    ) == same_name(entries[j].0, other) by {
        lemma_same_name_equivalence(entries[j].0, name, other);
        lemma_same_name_equivalence(entries[j].0, other, name);
        lemma_same_name_equivalence(name, other, name);
    }
    match position(entries, name) {
        Some(i) => {
            lemma_position_is_first(entries, other, i);
        },
        None => {
            lemma_position_none(entries, other);
        },
    }
}

/// Writing a value keeps the names distinct.
pub proof fn lemma_appended_distinct(entries: Entries, name: Seq<char>, value: Seq<char>)
    requires
        distinct_names(entries),
    ensures
        distinct_names(appended(entries, name, value)),
{
    lemma_position(entries, name);
    let after = appended(entries, name, value);
    assert forall|i: int, j: int| 0 <= i < j < after.len() implies !same_name(
        #[trigger] after[i].0,
        #[trigger] after[j].0,
    ) by {
        if j >= entries.len() {
            lemma_same_name_equivalence(entries[i].0, name, name);
        }
    }
}

/// Taking a header out keeps the names distinct.
pub proof fn lemma_deleted_distinct(entries: Entries, name: Seq<char>)
    requires
        distinct_names(entries),
    ensures
        distinct_names(deleted(entries, name)),
{
    lemma_position(entries, name);
}

/// The last value written for a name is the one it maps to, and writing it
/// leaves every other name as it was.
pub proof fn lemma_lookup_appended(
    entries: Entries,
    name: Seq<char>,
    value: Seq<char>,
    other: Seq<char>,
)
    ensures
        lookup(appended(entries, name, value), name) == Some(value),
        !same_name(name, other) ==> lookup(appended(entries, name, value), other) == lookup(
            entries,
            other,
        ),
{
    let after = appended(entries, name, value);
    lemma_position(entries, name);
    lemma_position(entries, other);
    assert forall|j: int| 0 <= j < entries.len() implies #[trigger] after[j].0
        == entries[j].0 by {}
    let place = match position(entries, name) {
        Some(i) => i,
        None => entries.len() as int,
    };
    lemma_position_is_first(after, name, place);
    if !same_name(name, other) {
        match position(entries, other) {
            Some(k) => {
                assert(after[k].1 == entries[k].1) by {
                    lemma_same_name_equivalence(name, entries[k].0, other);
                    lemma_same_name_equivalence(entries[k].0, name, name);
                }
                lemma_position_is_first(after, other, k);
            },
            None => {
                lemma_position_none(after, other);
            },
        }
    }
}

/// A name that was taken out maps to nothing, and taking it out leaves every
/// other name as it was.
pub proof fn lemma_lookup_deleted(entries: Entries, name: Seq<char>, other: Seq<char>)
    requires
        distinct_names(entries),
    ensures
        lookup(deleted(entries, name), name) is None,
        !same_name(name, other) ==> lookup(deleted(entries, name), other) == lookup(
            entries,
            other,
        ),
{
    let after = deleted(entries, name);
    lemma_position(entries, name);
    lemma_position(entries, other);
    if let Some(i) = position(entries, name) {
        assert forall|j: int| 0 <= j < after.len() implies #[trigger] after[j] == entries[if j
            < i {
            j
        } else {
            j + 1
        }] by {}
        assert forall|j: int| 0 <= j < after.len() implies !same_name(
            #[trigger] after[j].0,
            name,
        ) by {
            let o = if j < i { j } else { j + 1 };
            if same_name(entries[o].0, name) {
                lemma_same_name_equivalence(entries[o].0, name, entries[i].0);
                lemma_same_name_equivalence(entries[i].0, name, entries[o].0);
                assert(same_name(entries[o].0, entries[i].0) && same_name(
                    entries[i].0,
                    entries[o].0,
                ));
            }
        }
        lemma_position_none(after, name);
        if !same_name(name, other) {
            match position(entries, other) {
                Some(k) => {
                    assert(k != i) by {
                        lemma_same_name_equivalence(name, entries[i].0, other);
                        lemma_same_name_equivalence(entries[i].0, name, name);
                    }
                    let place = if k < i { k } else { k - 1 };
                    lemma_position_is_first(after, other, place);
                },
                None => {
                    lemma_position_none(after, other);
                },
            }
        }
    }
}

} // verus!
