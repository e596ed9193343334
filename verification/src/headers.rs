//! The header set of a request: an ordered mapping from header names to
//! values, in which names that differ only in ASCII case are one name and the
//! last value written for a name is the one it keeps.

use crate::header_model::{
    appended, deleted, distinct_names, fold, holds, lemma_appended_distinct,
    lemma_deleted_distinct, lemma_position, lemma_position_is_first, lemma_position_none, lookup,
    position, same_name, Entries,
};
use vstd::prelude::*;

verus! {

/// An ordered set of request headers.
#[derive(Debug)]
pub struct Headers {
    entries: Vec<(String, String)>,
}

/// What a list of stored entries stands for.
spec fn entries_view(entries: Seq<(String, String)>) -> Entries {
    Seq::new(entries.len(), |i: int| (entries[i].0@, entries[i].1@))
}

impl View for Headers {
    type V = Entries;

    closed spec fn view(&self) -> Entries {
        entries_view(self.entries@)
    }
}

/// Folds an ASCII capital onto its small letter.
fn fold_char(c: char) -> (r: char)
    ensures
        r == fold(c),
{
    if 'A' <= c && c <= 'Z' {
        let b: u8 = c as u8;
        (b + 32) as char
    } else {
        c
    }
}

/// Tells whether two header names are the same name.
pub fn names_match(a: &str, b: &str) -> (r: bool)
    ensures
        r == same_name(a@, b@),
{
    let n = a.unicode_len();
    if n != b.unicode_len() {
        return false;
    }
    let mut i: usize = 0;
    while i < n
        invariant
            n == a@.len(),
            n == b@.len(),
            i <= n,
            forall|j: int| #![auto] 0 <= j < i ==> fold(a@[j]) == fold(b@[j]),
        decreases n - i,
    {
        if fold_char(a.get_char(i)) != fold_char(b.get_char(i)) {
            return false;
        }
        i = i + 1;
    }
    true
}

/// The place of the entry that carries `name`.
fn find(entries: &Vec<(String, String)>, name: &str) -> (r: Option<usize>)
    ensures
        match r {
            Some(i) => position(entries_view(entries@), name@) == Some(i as int),
            None => position(entries_view(entries@), name@) is None,
        },
{
    let ghost listed = entries_view(entries@);
    let n = entries.len();
    let mut i: usize = 0;
    while i < n
        invariant
            listed == entries_view(entries@),
            n == entries@.len(),
            i <= n,
            forall|j: int| 0 <= j < i ==> !same_name(#[trigger] listed[j].0, name@),
        decreases n - i,
    {
        if names_match(entries[i].0.as_str(), name) {
            proof {
                lemma_position_is_first(listed, name@, i as int);
            }
            return Some(i);
        }
        i = i + 1;
    }
    proof {
        lemma_position_none(listed, name@);
    }
    None
}

impl Headers {
    #[verifier::type_invariant]
    spec fn inv(self) -> bool {
        distinct_names(self@)
    }

    /// An empty header set.
    pub fn new() -> (h: Headers)
        ensures
            h@ == Seq::<(Seq<char>, Seq<char>)>::empty(),
    {
        Headers { entries: Vec::new() }
    }

    /// The number of headers. No two of them carry the same name.
    pub fn len(&self) -> (n: usize)
        ensures
            n == self@.len(),
            distinct_names(self@),
    {
        proof {
            use_type_invariant(self);
        }
        self.entries.len()
    }

    /// Header `i` in the order of the set, as its name and its value.
    pub fn entry(&self, i: usize) -> (r: Option<(String, String)>)
        ensures
            match r {
                Some(pair) => i < self@.len() && (pair.0@, pair.1@) == self@[i as int],
                None => i >= self@.len(),
            },
    {
        if i < self.entries.len() {
            Some((self.entries[i].0.clone(), self.entries[i].1.clone()))
        } else {
            None
        }
    }

    /// The value that `name` maps to.
    pub fn get(&self, name: &str) -> (r: Option<String>)
        ensures
            match r {
                Some(value) => lookup(self@, name@) == Some(value@),
                None => lookup(self@, name@) is None,
            },
    {
        match find(&self.entries, name) {
            Some(i) => Some(self.entries[i].1.clone()),
            None => None,
        }
    }

    /// Tells whether some header carries `name`.
    pub fn has(&self, name: &str) -> (r: bool)
        ensures
            r == holds(self@, name@),
    {
        proof {
            lemma_position(self@, name@);
        }
        find(&self.entries, name).is_some()
    }

    /// Writes `value` for `name`.
    pub fn append(&mut self, name: &str, value: &str)
        ensures
            final(self)@ == appended(old(self)@, name@, value@),
            distinct_names(final(self)@),
    {
        proof {
            use_type_invariant(&*self);
            lemma_appended_distinct(self@, name@, value@);
        }
        let mut entries: Vec<(String, String)> = Vec::new();
        core::mem::swap(&mut self.entries, &mut entries);
        match find(&entries, name) {
            Some(i) => {
                let kept = entries[i].0.clone();
                entries.set(i, (kept, value.to_owned()));
            },
            None => {
                entries.push((name.to_owned(), value.to_owned()));
            },
        }
        assert(entries_view(entries@) =~= appended(old(self)@, name@, value@));
        self.entries = entries;
    }

    /// Takes the header that carries `name` out of the set.
    pub fn delete(&mut self, name: &str)
        ensures
            final(self)@ == deleted(old(self)@, name@),
            distinct_names(final(self)@),
    {
        proof {
            use_type_invariant(&*self);
            lemma_deleted_distinct(self@, name@);
        }
        let mut entries: Vec<(String, String)> = Vec::new();
        core::mem::swap(&mut self.entries, &mut entries);
        if let Some(i) = find(&entries, name) {
            entries.remove(i);
        }
        assert(entries_view(entries@) =~= deleted(old(self)@, name@));
        self.entries = entries;
    }
}

impl Clone for Headers {
    /// A second header set with the same headers in the same order.
    fn clone(&self) -> (copy: Headers)
        ensures
            copy@ == self@,
    {
        proof {
            use_type_invariant(self);
        }
        let n = self.entries.len();
        let mut entries: Vec<(String, String)> = Vec::new();
        let mut i: usize = 0;
        while i < n
            invariant
                n == self.entries@.len(),
                i <= n,
                entries@.len() == i,
                forall|j: int| 0 <= j < i ==> #[trigger] entries@[j] == self.entries@[j],
            decreases n - i,
        {
            entries.push((self.entries[i].0.clone(), self.entries[i].1.clone()));
            i = i + 1;
        }
        assert(entries_view(entries@) =~= self@);
        Headers { entries }
    }
}

} // verus!
