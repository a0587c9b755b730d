//! A table of rows keyed by a 128-bit identifier, with unique keys.
use vstd::prelude::*;

verus! {

/// A record that can be stored in a [`Table`].
pub trait Row: Sized {
    /// The record's identifier.
    spec fn key(&self) -> u128;

    fn id(&self) -> (r: u128)
        ensures
            r == self.key(),
    ;

    /// A field-by-field copy of the record.
    fn duplicate(&self) -> (r: Self)
        ensures
            r == *self,
    ;
}

/// Rows in insertion order, at most one per key.
pub struct Table<R> {
    rows: Vec<R>,
    index: Ghost<Map<u128, R>>,
}

impl<R: Row> View for Table<R> {
    type V = Map<u128, R>;

    /// The table's contents: each key present mapped to its row.
    closed spec fn view(&self) -> Map<u128, R> {
        self.index@
    }
}

impl<R: Row> Table<R> {
    /// The table is well formed: its rows match its contents, each entry
    /// is stored under its own key, and there are finitely many entries.
    pub open spec fn wf(&self) -> bool {
        &&& self.rows_match()
        &&& forall|k: u128| #[trigger] self@.contains_key(k) ==> self@[k].key() == k
        &&& self@.dom().finite()
    }

    /// Keys are unique, and the rows are exactly the entries of the view.
    pub closed spec fn rows_match(&self) -> bool {
        &&& forall|i: int, j: int|
            0 <= i < self.rows@.len() && 0 <= j < self.rows@.len() && i != j
                ==> #[trigger] self.rows@[i].key() != #[trigger] self.rows@[j].key()
        &&& forall|i: int|
            0 <= i < self.rows@.len() ==> {
                &&& self.index@.contains_key(#[trigger] self.rows@[i].key())
                &&& self.index@[self.rows@[i].key()] == self.rows@[i]
            }
        &&& forall|k: u128|
            #[trigger] self.index@.contains_key(k) ==> exists|i: int|
                0 <= i < self.rows@.len() && #[trigger] self.rows@[i].key() == k
    }

    pub fn new() -> (t: Self)
        ensures
            t.wf(),
            t@ == Map::<u128, R>::empty(),
    {
        Table { rows: Vec::new(), index: Ghost(Map::empty()) }
    }

    /// Position of the row with key `k`, if any.
    fn find(&self, k: u128) -> (r: Option<usize>)
        requires
            self.wf(),
        ensures
            match r {
                Some(i) => i < self.rows@.len() && self.rows@[i as int].key() == k,
                None => !self@.contains_key(k),
            },
    {
        let mut i: usize = 0;
        while i < self.rows.len()
            invariant
                self.wf(),
                i <= self.rows@.len(),
                forall|j: int| 0 <= j < i ==> #[trigger] self.rows@[j].key() != k,
            decreases self.rows@.len() - i,
        {
            if self.rows[i].id() == k {
                return Some(i);
            }
            i = i + 1;
        }
        None
    }

    /// The row stored under `k`, if any.
    pub fn get(&self, k: u128) -> (r: Option<R>)
        requires
            self.wf(),
        ensures
            r == (if self@.contains_key(k) { Some(self@[k]) } else { None::<R> }),
            r matches Some(x) ==> x.key() == k,
    {
        match self.find(k) {
            Some(i) => Some(self.rows[i].duplicate()),
            None => None,
        }
    }

    /// Whether a row is stored under `k`.
    pub fn contains(&self, k: u128) -> (r: bool)
        requires
            self.wf(),
        ensures
            r == self@.contains_key(k),
    {
        self.find(k).is_some()
    }

    /// Adds `row` unless its key is taken; says whether it was added.
    pub fn insert(&mut self, row: R) -> (r: bool)
        requires
            old(self).wf(),
        ensures
            final(self).wf(),
            r == !old(self)@.contains_key(row.key()),
            final(self)@ == (if r { old(self)@.insert(row.key(), row) } else { old(self)@ }),
    {
        let k = row.id();
        if self.find(k).is_some() {
            return false;
        }
        let ghost old_rows = self.rows@;
        let ghost old_index = self.index@;
        self.rows.push(row);
        self.index = Ghost(self.index@.insert(k, row));
        proof {
            let n = old_rows.len() as int;
            assert(self.rows@[n] == row);
            assert forall|i: int| 0 <= i < n implies #[trigger] self.rows@[i].key() != k by {
                assert(self.rows@[i] == old_rows[i]);
                assert(old_index.contains_key(old_rows[i].key()));
            }
            assert forall|kk: u128| #[trigger] self.index@.contains_key(kk) implies exists|i: int|
                0 <= i < self.rows@.len() && #[trigger] self.rows@[i].key() == kk by {
                if kk != k {
                    let i = choose|i: int| 0 <= i < old_rows.len() && #[trigger] old_rows[i].key() == kk;
                    assert(self.rows@[i] == old_rows[i]);
                } else {
                    assert(self.rows@[n].key() == kk);
                }
            }
        }
        true
    }

    /// Puts `row` in place of the row with the same key, if there is one;
    /// says whether there was.
    pub fn replace(&mut self, row: R) -> (r: bool)
        requires
            old(self).wf(),
        ensures
            final(self).wf(),
            r == old(self)@.contains_key(row.key()),
            final(self)@ == (if r { old(self)@.insert(row.key(), row) } else { old(self)@ }),
    {
        let k = row.id();
        match self.find(k) {
            None => false,
            Some(i) => {
                let ghost old_rows = self.rows@;
                let ghost old_index = self.index@;
                self.rows.remove(i);
                self.rows.insert(i, row);
                self.index = Ghost(self.index@.insert(k, row));
                proof {
                    assert(self.rows@ =~= old_rows.update(i as int, row));
                    assert forall|kk: u128| #[trigger] self.index@.contains_key(kk) implies exists|j: int|
                        0 <= j < self.rows@.len() && #[trigger] self.rows@[j].key() == kk by {
                        if kk != k {
                            let j = choose|j: int| 0 <= j < old_rows.len() && #[trigger] old_rows[j].key() == kk;
                            assert(self.rows@[j] == old_rows[j]);
                        } else {
                            assert(self.rows@[i as int].key() == kk);
                        }
                    }
                }
                true
            },
        }
    }

    /// Removes the row stored under `k`; returns how many rows went (0 or 1).
    pub fn remove(&mut self, k: u128) -> (r: usize)
        requires
            old(self).wf(),
        ensures
            final(self).wf(),
            r == (if old(self)@.contains_key(k) { 1usize } else { 0usize }),
            final(self)@ == old(self)@.remove(k),
    {
        match self.find(k) {
            None => {
                proof {
                    assert(self.index@ =~= self.index@.remove(k));
                }
                0
            },
            Some(i) => {
                let ghost old_rows = self.rows@;
                let ghost old_index = self.index@;
                self.rows.remove(i);
                self.index = Ghost(self.index@.remove(k));
                proof {
                    let ii = i as int;
                    assert(old_index.contains_key(k));
                    assert forall|j: int| 0 <= j < self.rows@.len() implies
                        #[trigger] self.rows@[j] == (if j < ii { old_rows[j] } else { old_rows[j + 1] }) by {}
                    assert forall|j: int| 0 <= j < self.rows@.len() implies
                        #[trigger] self.rows@[j].key() != k by {
                        if j < ii {
                            assert(self.rows@[j] == old_rows[j]);
                        } else {
                            assert(self.rows@[j] == old_rows[j + 1]);
                        }
                    }
                    assert forall|kk: u128| #[trigger] self.index@.contains_key(kk) implies exists|j: int|
                        0 <= j < self.rows@.len() && #[trigger] self.rows@[j].key() == kk by {
                        let j = choose|j: int| 0 <= j < old_rows.len() && #[trigger] old_rows[j].key() == kk;
                        if j < ii {
                            assert(self.rows@[j] == old_rows[j]);
                        } else {
                            assert(j != ii);
                            assert(self.rows@[j - 1] == old_rows[j]);
                        }
                    }
                    assert forall|a: int, b: int|
                        0 <= a < self.rows@.len() && 0 <= b < self.rows@.len() && a != b
                        implies #[trigger] self.rows@[a].key() != #[trigger] self.rows@[b].key() by {
                        let oa = if a < ii { a } else { a + 1 };
                        let ob = if b < ii { b } else { b + 1 };
                        assert(self.rows@[a] == old_rows[oa]);
                        assert(self.rows@[b] == old_rows[ob]);
                    }
                }
                1
            },
        }
    }
}

} // verus!
