//! What rows of every backend share: the column map and column references.

use crate::error::{Error, ErrorModel};
use crate::text::same_text;
use vstd::prelude::*;

verus! {

/// The map that the first `n` of the given entries build, a later entry
/// replacing an earlier one of the same name.
pub open spec fn entries_map(entries: Seq<(String, usize)>, n: nat) -> Map<Seq<char>, usize>
    decreases n,
{
    if n == 0 {
        Map::empty()
    } else {
        entries_map(entries, (n - 1) as nat).insert(entries[n - 1].0@, entries[n - 1].1)
    }
}

/// The positions of the named columns of one result shape. It is built once
/// and then shared, unchanged, by every row of that shape.
///
/// The entries stand in a vector that is searched from its end. A hash map
/// would need a model of how its keys are hashed, and vstd has one for
/// integers only, not for text.
#[derive(Debug)]
pub struct ColumnMap {
    entries: Vec<(String, usize)>,
}

impl View for ColumnMap {
    type V = Map<Seq<char>, usize>;

    closed spec fn view(&self) -> Map<Seq<char>, usize> {
        entries_map(self.entries@, self.entries@.len())
    }
}

impl ColumnMap {
    /// The map of a result without named columns.
    pub fn new() -> (r: Self)
        ensures
            r@ == Map::<Seq<char>, usize>::empty(),
    {
        ColumnMap { entries: Vec::new() }
    }

    /// Records that the column `name` stands at `index`, in place of what was
    /// known of that name.
    pub fn insert(&mut self, name: String, index: usize)
        ensures
            final(self)@ == old(self)@.insert(name@, index),
    {
        let ghost before = self.entries@;
        self.entries.push((name, index));
        proof {
            lemma_entries_map_prefix(self.entries@, before, before.len());
        }
    }

    /// The position of the column `name`, if the result has one.
    pub fn get(&self, name: &str) -> (r: Option<usize>)
        ensures
            r == if self@.contains_key(name@) {
                Some(self@[name@])
            } else {
                None::<usize>
            },
    {
        let mut i: usize = self.entries.len();
        while i > 0
            invariant
                i <= self.entries@.len(),
                self@.contains_key(name@) == entries_map(self.entries@, i as nat).contains_key(
                    name@,
                ),
                self@.contains_key(name@) ==> self@[name@] == entries_map(
                    self.entries@,
                    i as nat,
                )[name@],
            decreases i,
        {
            i = i - 1;
            if same_text(self.entries[i].0.as_str(), name) {
                return Some(self.entries[i].1);
            }
        }
        None
    }
}

/// The map of the first `n` entries is that of any prefix that holds them.
proof fn lemma_entries_map_prefix(
    entries: Seq<(String, usize)>,
    prefix: Seq<(String, usize)>,
    n: nat,
)
    requires
        n <= prefix.len() <= entries.len(),
        forall|i: int| 0 <= i < prefix.len() ==> entries[i] == prefix[i],
    ensures
        entries_map(entries, n) == entries_map(prefix, n),
    decreases n,
{
    if n > 0 {
        lemma_entries_map_prefix(entries, prefix, (n - 1) as nat);
    }
}

/// A reference to one column of a row: by position or by name.
pub trait ColumnIndex {
    /// The position that this reference names in a row of `len` columns whose
    /// named columns are `columns`, or why it names none.
    spec fn resolved(&self, columns: Map<Seq<char>, usize>, len: nat) -> Result<usize, ErrorModel>;

    /// The position is one of the row: a reference that names none fails.
    fn resolve(&self, columns: &ColumnMap, len: usize) -> (r: Result<usize, Error>)
        ensures
            match self.resolved(columns@, len as nat) {
                Ok(i) => r == Ok::<usize, Error>(i) && i < len,
                Err(e) => r is Err && r->Err_0@ == e,
            },
    ;
}

/// The position `index` of a row of `len` columns, or the failure to find it
/// there.
pub open spec fn checked_index(index: usize, len: nat) -> Result<usize, ErrorModel> {
    if index < len {
        Ok(index)
    } else {
        Err(ErrorModel::ColumnIndexOutOfBounds { index, len: len as usize })
    }
}

impl ColumnIndex for usize {
    open spec fn resolved(&self, columns: Map<Seq<char>, usize>, len: nat) -> Result<
        usize,
        ErrorModel,
    > {
        checked_index(*self, len)
    }

    fn resolve(&self, columns: &ColumnMap, len: usize) -> (r: Result<usize, Error>) {
        if *self < len {
            Ok(*self)
        } else {
            Err(Error::ColumnIndexOutOfBounds { index: *self, len })
        }
    }
}

impl ColumnIndex for &str {
    open spec fn resolved(&self, columns: Map<Seq<char>, usize>, len: nat) -> Result<
        usize,
        ErrorModel,
    > {
        if columns.contains_key(self@) {
            checked_index(columns[self@], len)
        } else {
            Err(ErrorModel::ColumnNotFound(self@))
        }
    }

    fn resolve(&self, columns: &ColumnMap, len: usize) -> (r: Result<usize, Error>) {
        match columns.get(self) {
            Some(index) => {
                if index < len {
                    Ok(index)
                } else {
                    Err(Error::ColumnIndexOutOfBounds { index, len })
                }
            },
            None => Err(Error::ColumnNotFound((*self).to_owned())),
        }
    }
}

} // verus!
