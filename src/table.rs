//! The contents of the rendezvous registry: at most one point per key.
use crate::point::{share, WaitPoint};
use std::sync::Arc;
use vstd::prelude::*;

verus! {

struct Entry {
    key: String,
    point: Arc<WaitPoint>,
}

spec fn unique_keys(entries: Seq<Entry>) -> bool {
    forall|i: int, j: int|
        0 <= i < entries.len() && 0 <= j < entries.len() && i != j ==> entries[i].key@
            != entries[j].key@
}

spec fn holds_key(entries: Seq<Entry>, k: Seq<char>) -> bool {
    exists|i: int| 0 <= i < entries.len() && entries[i].key@ == k
}

spec fn entries_map(entries: Seq<Entry>) -> Map<Seq<char>, Arc<WaitPoint>> {
    Map::new(
        |k: Seq<char>| holds_key(entries, k),
        |k: Seq<char>| entries[choose|i: int| 0 <= i < entries.len() && entries[i].key@ == k].point,
    )
}

proof fn lemma_lookup(entries: Seq<Entry>, i: int)
    requires
        unique_keys(entries),
        0 <= i < entries.len(),
    ensures
        entries_map(entries).contains_key(entries[i].key@),
        entries_map(entries)[entries[i].key@] == entries[i].point,
{
    let k = entries[i].key@;
    assert(holds_key(entries, k));
    let j = choose|j: int| 0 <= j < entries.len() && entries[j].key@ == k;
    assert(j == i);
}

proof fn lemma_push(entries: Seq<Entry>, e: Entry)
    requires
        unique_keys(entries),
        !holds_key(entries, e.key@),
    ensures
        unique_keys(entries.push(e)),
        entries_map(entries.push(e)) == entries_map(entries).insert(e.key@, e.point),
{
    let pushed = entries.push(e);
    let n = entries.len() as int;
    assert forall|i: int, j: int|
        0 <= i < pushed.len() && 0 <= j < pushed.len() && i != j implies pushed[i].key@
            != pushed[j].key@ by {
        if i == n {
            assert(entries[j] == pushed[j]);
        } else if j == n {
            assert(entries[i] == pushed[i]);
        }
    }
    let m = entries_map(entries).insert(e.key@, e.point);
    assert forall|k: Seq<char>| #[trigger] m.contains_key(k) == holds_key(pushed, k) by {
        if holds_key(entries, k) {
            let i = choose|i: int| 0 <= i < entries.len() && entries[i].key@ == k;
            assert(pushed[i] == entries[i]);
        }
        if holds_key(pushed, k) && k != e.key@ {
            let i = choose|i: int| 0 <= i < pushed.len() && pushed[i].key@ == k;
            assert(entries[i] == pushed[i]);
        }
        if k == e.key@ {
            assert(pushed[n].key@ == k);
        }
    }
    assert forall|k: Seq<char>| #[trigger] m.contains_key(k) implies entries_map(pushed)[k]
        == m[k] by {
        let i = choose|i: int| 0 <= i < pushed.len() && pushed[i].key@ == k;
        lemma_lookup(pushed, i);
        if k != e.key@ {
            assert(entries[i] == pushed[i]);
            lemma_lookup(entries, i);
        }
    }
    assert(entries_map(pushed) =~= m);
}

proof fn lemma_remove(entries: Seq<Entry>, i: int)
    requires
        unique_keys(entries),
        0 <= i < entries.len(),
    ensures
        unique_keys(entries.remove(i)),
        entries_map(entries.remove(i)) == entries_map(entries).remove(entries[i].key@),
{
    let removed = entries.remove(i);
    let k0 = entries[i].key@;
    assert forall|a: int, b: int|
        0 <= a < removed.len() && 0 <= b < removed.len() && a != b implies removed[a].key@
            != removed[b].key@ by {
        let a0 = if a < i { a } else { a + 1 };
        let b0 = if b < i { b } else { b + 1 };
        assert(removed[a] == entries[a0]);
        assert(removed[b] == entries[b0]);
    }
    let m = entries_map(entries).remove(k0);
    assert forall|k: Seq<char>| #[trigger] m.contains_key(k) == holds_key(removed, k) by {
        if holds_key(entries, k) && k != k0 {
            let j = choose|j: int| 0 <= j < entries.len() && entries[j].key@ == k;
            let j1 = if j < i { j } else { j - 1 };
            assert(removed[j1] == entries[j]);
        }
        if holds_key(removed, k) {
            let j = choose|j: int| 0 <= j < removed.len() && removed[j].key@ == k;
            let j0 = if j < i { j } else { j + 1 };
            assert(removed[j] == entries[j0]);
        }
    }
    assert forall|k: Seq<char>| #[trigger] m.contains_key(k) implies entries_map(removed)[k]
        == m[k] by {
        let j = choose|j: int| 0 <= j < removed.len() && removed[j].key@ == k;
        let j0 = if j < i { j } else { j + 1 };
        assert(removed[j] == entries[j0]);
        lemma_lookup(removed, j);
        lemma_lookup(entries, j0);
    }
    assert(entries_map(removed) =~= m);
}

/// A change made to the table under exclusive access.
#[derive(Debug, Clone, Copy, PartialEq, Eq, Structural)]
pub enum TableOp {
    GetOrCreate,
    Remove,
}

/// The registry's table: each key maps to the point of its open pairing attempt.
pub struct PointTable {
    entries: Vec<Entry>,
}

impl View for PointTable {
    type V = Map<Seq<char>, Arc<WaitPoint>>;

    closed spec fn view(&self) -> Map<Seq<char>, Arc<WaitPoint>> {
        entries_map(self.entries@)
    }
}

impl PointTable {
    #[verifier::type_invariant]
    spec fn one_point_per_key(self) -> bool {
        unique_keys(self.entries@)
    }

    /// An empty table.
    pub fn new() -> (r: Self)
        ensures
            r@ == Map::<Seq<char>, Arc<WaitPoint>>::empty(),
    {
        let r = PointTable { entries: Vec::new() };
        assert(r@ =~= Map::<Seq<char>, Arc<WaitPoint>>::empty());
        r
    }

    /// The position of `key` among the entries, if it is there.
    fn find(&self, key: &String) -> (r: Option<usize>)
        ensures
            match r {
                Some(i) => i < self.entries@.len() && self.entries@[i as int].key@ == key@,
                None => !holds_key(self.entries@, key@),
            },
    {
        let mut i: usize = 0;
        while i < self.entries.len()
            invariant
                i <= self.entries@.len(),
                forall|j: int| 0 <= j < i ==> self.entries@[j].key@ != key@,
            decreases self.entries@.len() - i,
        {
            if self.entries[i].key == *key {
                return Some(i);
            }
            i = i + 1;
        }
        None
    }

    /// The point stored for `key`, if any.
    pub fn get(&self, key: &str) -> (r: Option<Arc<WaitPoint>>)
        ensures
            match r {
                Some(point) => self@.contains_key(key@) && point == self@[key@],
                None => !self@.contains_key(key@),
            },
    {
        proof {
            use_type_invariant(self);
        }
        let key = key.to_owned();
        match self.find(&key) {
            Some(i) => {
                proof {
                    lemma_lookup(self.entries@, i as int);
                }
                Some(share(&self.entries[i].point))
            },
            None => None,
        }
    }

    /// The point stored for `key`; when there is none, a fresh point is stored
    /// first. The flag says whether it was created.
    pub fn get_or_create(&mut self, key: &str) -> (r: (Arc<WaitPoint>, bool))
        ensures
            old(self)@.contains_key(key@) ==> {
                &&& final(self)@ == old(self)@
                &&& r.0 == old(self)@[key@]
                &&& !r.1
            },
            !old(self)@.contains_key(key@) ==> {
                &&& final(self)@ == old(self)@.insert(key@, r.0)
                &&& r.1
            },
    {
        proof {
            use_type_invariant(&*self);
        }
        let key = key.to_owned();
        match self.find(&key) {
            Some(i) => {
                proof {
                    lemma_lookup(self.entries@, i as int);
                }
                (share(&self.entries[i].point), false)
            },
            None => {
                let point = Arc::new(WaitPoint::new());
                let entry = Entry { key, point: share(&point) };
                proof {
                    lemma_push(self.entries@, entry);
                }
                let mut entries = Vec::new();
                std::mem::swap(&mut self.entries, &mut entries);
                entries.push(entry);
                *self = PointTable { entries };
                (point, true)
            },
        }
    }

    /// Drops the entry for `key`, returning its point; absent keys are no error.
    pub fn remove(&mut self, key: &str) -> (r: Option<Arc<WaitPoint>>)
        ensures
            final(self)@ == old(self)@.remove(key@),
            match r {
                Some(point) => old(self)@.contains_key(key@) && point == old(self)@[key@],
                None => !old(self)@.contains_key(key@),
            },
    {
        proof {
            use_type_invariant(&*self);
        }
        let key = key.to_owned();
        match self.find(&key) {
            Some(i) => {
                proof {
                    lemma_lookup(self.entries@, i as int);
                    lemma_remove(self.entries@, i as int);
                }
                let mut entries = Vec::new();
                std::mem::swap(&mut self.entries, &mut entries);
                let entry = entries.remove(i);
                *self = PointTable { entries };
                Some(entry.point)
            },
            None => {
                assert(old(self)@.remove(key@) =~= old(self)@);
                None
            },
        }
    }

    /// Runs `op` on `key`: `get_or_create` gives `Some` of the key's point,
    /// `remove` gives what it removed.
    pub fn apply(&mut self, op: TableOp, key: &str) -> (r: Option<Arc<WaitPoint>>)
        ensures
            op is GetOrCreate ==> {
                &&& r is Some
                &&& old(self)@.contains_key(key@) ==> final(self)@ == old(self)@ && r == Some(
                    old(self)@[key@],
                )
                &&& !old(self)@.contains_key(key@) ==> final(self)@ == old(self)@.insert(
                    key@,
                    r->Some_0,
                )
            },
            op is Remove ==> {
                &&& final(self)@ == old(self)@.remove(key@)
                &&& r == if old(self)@.contains_key(key@) {
                    Some(old(self)@[key@])
                } else {
                    None
                }
            },
    {
        match op {
            TableOp::GetOrCreate => Some(self.get_or_create(key).0),
            TableOp::Remove => self.remove(key),
        }
    }
}

} // verus!
