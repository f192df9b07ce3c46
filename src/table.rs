use vstd::prelude::*;

verus! {

/// True iff the two byte strings are equal, byte for byte.
pub fn bytes_eq(a: &[u8], b: &[u8]) -> (r: bool)
    ensures
        r == (a@ == b@),
{
    if a.len() != b.len() {
        return false;
    }
    let mut i: usize = 0;
    while i < a.len()
        invariant
            a@.len() == b@.len(),
            i <= a@.len(),
            forall|j: int| 0 <= j < i ==> a@[j] == b@[j],
        decreases a@.len() - i,
    {
        if a[i] != b[i] {
            return false;
        }
        i = i + 1;
    }
    assert(a@ =~= b@);
    true
}

/// A key of a table, looked up through a borrowed form with the same view.
pub trait Key: View + Sized {
    type Borrowed: View<V = Self::V> + ?Sized;

    /// True iff this key and `other` have the same view.
    fn same_key(&self, other: &Self::Borrowed) -> (r: bool)
        ensures
            r == (self@ == other@),
    ;

    /// This key in its borrowed form.
    fn as_borrowed(&self) -> (r: &Self::Borrowed)
        ensures
            r@ == self@,
    ;
}

impl Key for u64 {
    type Borrowed = u64;

    fn as_borrowed(&self) -> (r: &u64) {
        self
    }

    fn same_key(&self, other: &u64) -> (r: bool) {
        *self == *other
    }
}

impl Key for Vec<u8> {
    type Borrowed = [u8];

    fn as_borrowed(&self) -> (r: &[u8]) {
        self.as_slice()
    }

    fn same_key(&self, other: &[u8]) -> (r: bool) {
        bytes_eq(self.as_slice(), other)
    }
}

/// A finite map held as a list of entries, each key listed once.
pub struct Table<K: Key, V: Copy> {
    entries: Vec<(K, V)>,
    map: Ghost<Map<K::V, V>>,
}

impl<K: Key, V: Copy> View for Table<K, V> {
    type V = Map<K::V, V>;

    closed spec fn view(&self) -> Map<K::V, V> {
        self.map@
    }
}

impl<K: Key, V: Copy> Table<K, V> {
    /// The map is finite, and the entries list each key once and are exactly
    /// the map.
    pub closed spec fn wf(&self) -> bool {
        &&& self.map@.dom().finite()
        &&& forall|i: int|
            0 <= i < self.entries@.len() ==> {
                &&& #[trigger] self.map@.contains_key(self.entries@[i].0@)
                &&& self.map@[self.entries@[i].0@] == self.entries@[i].1
            }
        &&& forall|k: K::V|
            #[trigger] self.map@.contains_key(k) ==> exists|i: int|
                0 <= i < self.entries@.len() && #[trigger] self.entries@[i].0@ == k
        &&& forall|i: int, j: int|
            0 <= i < self.entries@.len() && 0 <= j < self.entries@.len() && i != j
                ==> #[trigger] self.entries@[i].0@ != #[trigger] self.entries@[j].0@
    }

    /// A consistent table holds finitely many keys.
    pub proof fn lemma_finite(&self)
        requires
            self.wf(),
        ensures
            self@.dom().finite(),
    {
    }

    /// An empty table.
    pub fn new() -> (r: Self)
        ensures
            r.wf(),
            r@ == Map::<K::V, V>::empty(),
    {
        Table { entries: Vec::new(), map: Ghost(Map::empty()) }
    }

    /// The position of the entry for `key`, if there is one.
    fn find(&self, key: &K::Borrowed) -> (r: Option<usize>)
        requires
            self.wf(),
        ensures
            match r {
                Some(i) => i < self.entries@.len() && self.entries@[i as int].0@ == key@,
                None => !self@.contains_key(key@),
            },
    {
        let mut i: usize = 0;
        while i < self.entries.len()
            invariant
                self.wf(),
                i <= self.entries@.len(),
                forall|j: int| 0 <= j < i ==> #[trigger] self.entries@[j].0@ != key@,
            decreases self.entries@.len() - i,
        {
            if self.entries[i].0.same_key(key) {
                return Some(i);
            }
            i = i + 1;
        }
        None
    }

    /// The value stored under `key`, if any.
    pub fn get(&self, key: &K::Borrowed) -> (r: Option<V>)
        requires
            self.wf(),
        ensures
            r == (if self@.contains_key(key@) {
                Some(self@[key@])
            } else {
                None::<V>
            }),
    {
        match self.find(key) {
            Some(i) => Some(self.entries[i].1),
            None => None,
        }
    }

    /// Stores `value` under `key`, replacing any earlier value.
    pub fn insert(&mut self, key: K, value: V)
        requires
            old(self).wf(),
        ensures
            final(self).wf(),
            final(self)@ == old(self)@.insert(key@, value),
    {
        let ghost k0 = key@;
        let ghost pos: int;
        match self.find(key.as_borrowed()) {
            Some(i) => {
                self.entries[i] = (key, value);
                proof { pos = i as int; }
            },
            None => {
                self.entries.push((key, value));
                proof { pos = self.entries@.len() - 1; }
            },
        }
        self.map = Ghost(self.map@.insert(k0, value));
        assert(self.entries@[pos].0@ == k0);
        assert forall|k: K::V| #[trigger] self.map@.contains_key(k) implies exists|i: int|
            0 <= i < self.entries@.len() && #[trigger] self.entries@[i].0@ == k by {
            if k != k0 {
                let i = choose|i: int|
                    0 <= i < old(self).entries@.len() && #[trigger] old(self).entries@[i].0@ == k;
                assert(self.entries@[i].0@ == k);
            } else {
                assert(self.entries@[pos].0@ == k);
            }
        }
    }
}

} // verus!
