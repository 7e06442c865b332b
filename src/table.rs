use vstd::prelude::*;

verus! {

/// A key that a [`Table`] can hold: it has a mathematical model, and two keys
/// can be compared by their models at run time.
pub trait TableKey: Sized {
    type Model;

    spec fn model(&self) -> Self::Model;

    fn key_eq(&self, other: &Self) -> (r: bool)
        ensures
            r == (self.model() == other.model()),
    ;

    fn key_clone(&self) -> (r: Self)
        ensures
            r.model() == self.model(),
    ;
}

impl TableKey for u32 {
    type Model = u32;

    open spec fn model(&self) -> u32 {
        *self
    }

    fn key_eq(&self, other: &Self) -> (r: bool) {
        *self == *other
    }

    fn key_clone(&self) -> (r: Self) {
        *self
    }
}

impl TableKey for Vec<u8> {
    type Model = Seq<u8>;

    open spec fn model(&self) -> Seq<u8> {
        self@
    }

    fn key_eq(&self, other: &Self) -> (r: bool) {
        bytes_eq(self, other)
    }

    fn key_clone(&self) -> (r: Self) {
        bytes_clone(self)
    }
}

impl<A: TableKey> TableKey for Option<A> {
    type Model = Option<A::Model>;

    open spec fn model(&self) -> Option<A::Model> {
        match self {
            Some(a) => Some(a.model()),
            None => None,
        }
    }

    fn key_eq(&self, other: &Self) -> (r: bool) {
        match (self, other) {
            (Some(a), Some(b)) => a.key_eq(b),
            (None, None) => true,
            _ => false,
        }
    }

    fn key_clone(&self) -> (r: Self) {
        match self {
            Some(a) => Some(a.key_clone()),
            None => None,
        }
    }
}

impl<A: TableKey, B: TableKey> TableKey for (A, B) {
    type Model = (A::Model, B::Model);

    open spec fn model(&self) -> (A::Model, B::Model) {
        (self.0.model(), self.1.model())
    }

    fn key_eq(&self, other: &Self) -> (r: bool) {
        self.0.key_eq(&other.0) && self.1.key_eq(&other.1)
    }

    fn key_clone(&self) -> (r: Self) {
        (self.0.key_clone(), self.1.key_clone())
    }
}

impl<A: TableKey, B: TableKey, C: TableKey> TableKey for (A, B, C) {
    type Model = (A::Model, B::Model, C::Model);

    open spec fn model(&self) -> (A::Model, B::Model, C::Model) {
        (self.0.model(), self.1.model(), self.2.model())
    }

    fn key_eq(&self, other: &Self) -> (r: bool) {
        self.0.key_eq(&other.0) && self.1.key_eq(&other.1) && self.2.key_eq(&other.2)
    }

    fn key_clone(&self) -> (r: Self) {
        (self.0.key_clone(), self.1.key_clone(), self.2.key_clone())
    }
}

/// Compares two byte strings element by element.
pub fn bytes_eq(a: &Vec<u8>, b: &Vec<u8>) -> (r: bool)
    ensures
        r == (a@ == b@),
{
    if a.len() != b.len() {
        return false;
    }
    let mut i: usize = 0;
    while i < a.len()
        invariant
            a@.len() == b@.len(),
            0 <= i <= a@.len(),
            forall|j: int| 0 <= j < i ==> a@[j] == b@[j],
        decreases a@.len() - i,
    {
        if a[i] != b[i] {
            return false;
        }
        i = i + 1;
    }
    assert(a@ =~= b@);
    true
}

/// Copies a byte string.
pub fn bytes_clone(a: &Vec<u8>) -> (r: Vec<u8>)
    ensures
        r@ == a@,
{
    let mut r: Vec<u8> = Vec::new();
    let mut i: usize = 0;
    while i < a.len()
        invariant
            0 <= i <= a@.len(),
            r@ == a@.subrange(0, i as int),
        decreases a@.len() - i,
    {
        r.push(a[i]);
        i = i + 1;
    }
    assert(r@ =~= a@);
    r
}

/// A finite map from keys to values, kept as a list of entries with distinct
/// keys. Its view is the map from key models to values.
///
/// The ledgers keep their state in tables. Where the state lives between
/// calls (on a chain, the host's key-value storage, such as ink!'s
/// `Mapping`) is the host's concern, not the ledgers'.
pub struct Table<K: TableKey, T> {
    entries: Vec<(K, T)>,
    contents: Ghost<Map<K::Model, T>>,
}

impl<K: TableKey, T> View for Table<K, T> {
    type V = Map<K::Model, T>;

    closed spec fn view(&self) -> Map<K::Model, T> {
        self.contents@
    }
}

impl<K: TableKey, T> Table<K, T> {
    /// The values of the entries, one per key, in the order of the entries.
    pub closed spec fn values(&self) -> Seq<T> {
        self.entries@.map_values(|e: (K, T)| e.1)
    }

    pub closed spec fn wf(&self) -> bool {
        &&& self.contents@.dom().finite()
        &&& forall|i: int, j: int|
            0 <= i < j < self.entries@.len() ==> #[trigger] self.entries@[i].0.model()
                != #[trigger] self.entries@[j].0.model()
        &&& forall|i: int|
            0 <= i < self.entries@.len() ==> {
                &&& self.contents@.contains_key(#[trigger] self.entries@[i].0.model())
                &&& self.contents@[self.entries@[i].0.model()] == self.entries@[i].1
            }
        &&& forall|k: K::Model|
            #[trigger] self.contents@.contains_key(k) ==> exists|i: int|
                0 <= i < self.entries@.len() && #[trigger] self.entries@[i].0.model() == k
    }

    /// A table holds finitely many entries.
    pub proof fn lemma_finite(&self)
        requires
            self.wf(),
        ensures
            self@.dom().finite(),
    {
    }

    /// Every value in the view is the value of one of the entries.
    pub proof fn lemma_value_listed(&self, k: K::Model)
        requires
            self.wf(),
            self@.contains_key(k),
        ensures
            exists|i: int| 0 <= i < self.values().len() && self.values()[i] == self@[k],
    {
        let i = choose|i: int| 0 <= i < self.entries@.len() && #[trigger] self.entries@[i].0.model() == k;
        assert(self.values()[i] == self@[k]);
    }

    /// The values of two different keys are the values of two different
    /// entries.
    pub proof fn lemma_two_values_listed(&self, k1: K::Model, k2: K::Model)
        requires
            self.wf(),
            self@.contains_key(k1),
            self@.contains_key(k2),
            k1 != k2,
        ensures
            exists|i: int, j: int|
                0 <= i < self.values().len() && 0 <= j < self.values().len() && i != j
                    && self.values()[i] == self@[k1] && self.values()[j] == self@[k2],
    {
        let i = choose|i: int| 0 <= i < self.entries@.len() && #[trigger] self.entries@[i].0.model() == k1;
        let j = choose|j: int| 0 <= j < self.entries@.len() && #[trigger] self.entries@[j].0.model() == k2;
        assert(self.values()[i] == self@[k1]);
        assert(self.values()[j] == self@[k2]);
    }

    pub fn new() -> (t: Self)
        ensures
            t.wf(),
            t@.dom().finite(),
            t@ == Map::<K::Model, T>::empty(),
            t.values() == Seq::<T>::empty(),
    {
        let t = Table { entries: Vec::new(), contents: Ghost(Map::empty()) };
        assert(t.values() =~= Seq::<T>::empty());
        t
    }

    /// The position of the entry for `k`, if there is one.
    fn find(&self, k: &K) -> (r: Option<usize>)
        requires
            self.wf(),
        ensures
            match r {
                Some(i) => i < self.entries@.len() && self.entries@[i as int].0.model()
                    == k.model(),
                None => !self@.contains_key(k.model()),
            },
    {
        let mut i: usize = 0;
        while i < self.entries.len()
            invariant
                self.wf(),
                0 <= i <= self.entries@.len(),
                forall|j: int| 0 <= j < i ==> self.entries@[j].0.model() != k.model(),
            decreases self.entries@.len() - i,
        {
            if self.entries[i].0.key_eq(k) {
                return Some(i);
            }
            i = i + 1;
        }
        None
    }

    pub fn contains(&self, k: &K) -> (r: bool)
        requires
            self.wf(),
        ensures
            r == self@.contains_key(k.model()),
    {
        match self.find(k) {
            Some(_) => true,
            None => false,
        }
    }

    pub fn get(&self, k: &K) -> (r: Option<&T>)
        requires
            self.wf(),
        ensures
            match r {
                Some(v) => self@.contains_key(k.model()) && *v == self@[k.model()],
                None => !self@.contains_key(k.model()),
            },
    {
        match self.find(k) {
            Some(i) => Some(&self.entries[i].1),
            None => None,
        }
    }

    /// Sets the value for `k`, replacing the value that it had.
    pub fn insert(&mut self, k: K, v: T)
        requires
            old(self).wf(),
        ensures
            final(self).wf(),
            final(self)@ == old(self)@.insert(k.model(), v),
            old(self)@.contains_key(k.model()) ==> exists|i: int|
                0 <= i < old(self).values().len() && old(self).values()[i] == old(self)@[k.model()]
                    && final(self).values() == old(self).values().update(i, v),
            !old(self)@.contains_key(k.model()) ==> final(self).values() == old(self).values().push(
                v,
            ),
    {
        let ghost km = k.model();
        let ghost old_values = self.values();
        let ghost new_map = self.contents@.insert(km, v);
        match self.find(&k) {
            Some(i) => {
                let ghost old_entries = self.entries@;
                self.entries.set(i, (k, v));
                self.contents = Ghost(new_map);
                assert(self.values() =~= old_values.update(i as int, v));
                assert(old_values[i as int] == old(self)@[km]);
                assert forall|a: int, b: int|
                    0 <= a < b < self.entries@.len() implies #[trigger] self.entries@[a].0.model()
                    != #[trigger] self.entries@[b].0.model() by {
                    assert(old_entries[a].0.model() != old_entries[b].0.model());
                }
                assert forall|a: int| 0 <= a < self.entries@.len() implies {
                    &&& self.contents@.contains_key(#[trigger] self.entries@[a].0.model())
                    &&& self.contents@[self.entries@[a].0.model()] == self.entries@[a].1
                } by {
                    if a != i {
                        assert(old_entries[a].0.model() != old_entries[i as int].0.model());
                    }
                }
                assert forall|kk: K::Model| #[trigger] self.contents@.contains_key(kk) implies exists|
                    j: int,
                |
                    0 <= j < self.entries@.len() && #[trigger] self.entries@[j].0.model()
                        == kk by {
                    if kk == km {
                        assert(self.entries@[i as int].0.model() == kk);
                    } else {
                        assert(old(self).contents@.contains_key(kk));
                        let j = choose|j: int|
                            0 <= j < old_entries.len() && #[trigger] old_entries[j].0.model() == kk;
                        assert(self.entries@[j].0.model() == kk);
                    }
                }
            },
            None => {
                self.entries.push((k, v));
                self.contents = Ghost(new_map);
                assert(self.values() =~= old_values.push(v));
                assert forall|kk: K::Model| #[trigger] self.contents@.contains_key(kk) implies exists|
                    i: int,
                |
                    0 <= i < self.entries@.len() && #[trigger] self.entries@[i].0.model()
                        == kk by {
                    if kk == km {
                        assert(self.entries@[self.entries@.len() - 1].0.model() == kk);
                    } else {
                        assert(old(self).contents@.contains_key(kk));
                        let j = choose|j: int|
                            0 <= j < old(self).entries@.len() && #[trigger] old(self).entries@[j].0.model() == kk;
                        assert(self.entries@[j].0.model() == kk);
                    }
                }
            },
        }
    }

    /// Copies of all the keys, one per entry.
    pub fn keys(&self) -> (r: Vec<K>)
        requires
            self.wf(),
        ensures
            forall|i: int| 0 <= i < r@.len() ==> self@.contains_key(#[trigger] r@[i].model()),
            forall|k: K::Model|
                #[trigger] self@.contains_key(k) ==> exists|i: int|
                    0 <= i < r@.len() && #[trigger] r@[i].model() == k,
    {
        let mut r: Vec<K> = Vec::new();
        let mut i: usize = 0;
        while i < self.entries.len()
            invariant
                self.wf(),
                0 <= i <= self.entries@.len(),
                r@.len() == i,
                forall|j: int| 0 <= j < i ==> #[trigger] r@[j].model() == self.entries@[j].0.model(),
            decreases self.entries@.len() - i,
        {
            r.push(self.entries[i].0.key_clone());
            i = i + 1;
        }
        assert forall|j: int| 0 <= j < r@.len() implies self@.contains_key(#[trigger] r@[j].model()) by {
            assert(self.contents@.contains_key(self.entries@[j].0.model()));
        }
        assert forall|k: K::Model| #[trigger] self@.contains_key(k) implies exists|j: int|
            0 <= j < r@.len() && #[trigger] r@[j].model() == k by {
            let j = choose|j: int| 0 <= j < self.entries@.len() && #[trigger] self.entries@[j].0.model() == k;
            assert(r@[j].model() == k);
        }
        r
    }

    /// Takes the entry for `k` out, if there is one.
    pub fn remove(&mut self, k: &K)
        requires
            old(self).wf(),
        ensures
            final(self).wf(),
            final(self)@ == old(self)@.remove(k.model()),
    {
        let ghost km = k.model();
        let ghost new_map = self.contents@.remove(km);
        match self.find(k) {
            Some(i) => {
                let ghost old_entries = self.entries@;
                self.entries.remove(i);
                self.contents = Ghost(new_map);
                assert forall|kk: K::Model| #[trigger] self.contents@.contains_key(kk) implies exists|
                    j: int,
                |
                    0 <= j < self.entries@.len() && #[trigger] self.entries@[j].0.model()
                        == kk by {
                    assert(old(self).contents@.contains_key(kk));
                    let j = choose|j: int|
                        0 <= j < old_entries.len() && #[trigger] old_entries[j].0.model() == kk;
                    if j < i {
                        assert(self.entries@[j].0.model() == kk);
                    } else {
                        assert(j != i);
                        assert(self.entries@[j - 1].0.model() == kk);
                    }
                }
                assert forall|a: int, b: int|
                    0 <= a < b < self.entries@.len() implies #[trigger] self.entries@[a].0.model()
                    != #[trigger] self.entries@[b].0.model() by {
                    let oa = if a < i {
                        a
                    } else {
                        a + 1
                    };
                    let ob = if b < i {
                        b
                    } else {
                        b + 1
                    };
                    assert(old_entries[oa].0.model() != old_entries[ob].0.model());
                }
                assert forall|a: int| 0 <= a < self.entries@.len() implies {
                    &&& self.contents@.contains_key(#[trigger] self.entries@[a].0.model())
                    &&& self.contents@[self.entries@[a].0.model()] == self.entries@[a].1
                } by {
                    let oa = if a < i {
                        a
                    } else {
                        a + 1
                    };
                    assert(old_entries[oa].0.model() != old_entries[i as int].0.model());
                }
            },
            None => {
                assert(self.contents@ =~= new_map);
            },
        }
    }
}

} // verus!
