//! Two small collections keyed by agent identifier: a set of identifiers and
//! a table of time stamps.

use crate::text::{text_eq, texts, Text};
use vstd::prelude::*;

verus! {

/// A set of identifiers.
#[derive(Debug)]
pub struct IdSet {
    ids: Vec<String>,
}

impl View for IdSet {
    type V = Set<Text>;

    closed spec fn view(&self) -> Set<Text> {
        texts(self.ids@).to_set()
    }
}

impl IdSet {
    /// The empty set.
    pub fn new() -> (r: Self)
        ensures
            r@ == Set::<Text>::empty(),
    {
        let r = IdSet { ids: Vec::new() };
        assert(r@ =~= Set::<Text>::empty());
        r
    }

    /// Whether `id` is in the set.
    pub fn contains(&self, id: &str) -> (r: bool)
        ensures
            r == self@.contains(id@),
    {
        let mut i: usize = 0;
        while i < self.ids.len()
            invariant
                i <= self.ids.len(),
                forall|k: int| 0 <= k < i ==> #[trigger] texts(self.ids@)[k] != id@,
            decreases self.ids.len() - i,
        {
            if text_eq(self.ids[i].as_str(), id) {
                assert(texts(self.ids@)[i as int] == id@);
                return true;
            }
            i += 1;
        }
        false
    }

    /// Puts `id` into the set.
    pub fn insert(&mut self, id: String)
        ensures
            final(self)@ == old(self)@.insert(id@),
    {
        if !self.contains(id.as_str()) {
            let ghost before = texts(self.ids@);
            self.ids.push(id);
            assert(texts(self.ids@) =~= before.push(id@));
            assert(self@ =~= old(self)@.insert(id@)) by {
                assert forall|t: Text| self@.contains(t) <==> old(self)@.insert(id@).contains(
                    t,
                ) by {
                    if before.push(id@).contains(t) {
                        let k = choose|k: int|
                            0 <= k < before.push(id@).len() && before.push(id@)[k] == t;
                        if k < before.len() {
                            assert(before[k] == t);
                        }
                    }
                    if before.contains(t) {
                        let k = choose|k: int| 0 <= k < before.len() && before[k] == t;
                        assert(before.push(id@)[k] == t);
                    }
                    if t == id@ {
                        assert(before.push(id@)[before.len() as int] == t);
                    }
                }
            }
        } else {
            assert(self@ =~= old(self)@.insert(id@));
        }
    }

    /// Takes `id` out of the set.
    pub fn remove(&mut self, id: &str)
        ensures
            final(self)@ == old(self)@.remove(id@),
    {
        let mut kept: Vec<String> = Vec::new();
        let mut i: usize = 0;
        while i < self.ids.len()
            invariant
                i <= self.ids.len(),
                forall|t: Text|
                    #[trigger] texts(kept@).contains(t) <==> (t != id@ && texts(self.ids@).take(
                        i as int,
                    ).contains(t)),
            decreases self.ids.len() - i,
        {
            let ghost before = texts(kept@);
            let ghost seen = texts(self.ids@).take(i as int);
            let ghost cur = self.ids@[i as int]@;
            let keep = !text_eq(self.ids[i].as_str(), id);
            if keep {
                kept.push(self.ids[i].clone());
                assert(texts(kept@) =~= before.push(cur));
            }
            proof {
                let next = texts(self.ids@).take(i + 1);
                assert(next =~= seen.push(cur));
                assert forall|t: Text| #[trigger]
                    texts(kept@).contains(t) <==> (t != id@ && next.contains(t)) by {
                    if texts(kept@).contains(t) {
                        let k = choose|k: int| 0 <= k < texts(kept@).len() && texts(kept@)[k] == t;
                        if k < before.len() {
                            assert(before[k] == t);
                            assert(before.contains(t));
                            let m = choose|m: int| 0 <= m < seen.len() && seen[m] == t;
                            assert(next[m] == t);
                        } else {
                            assert(next[i as int] == t);
                        }
                    }
                    if t != id@ && next.contains(t) {
                        let m = choose|m: int| 0 <= m < next.len() && next[m] == t;
                        if m < seen.len() {
                            assert(seen[m] == t);
                            assert(seen.contains(t));
                            assert(before.contains(t));
                            let k = choose|k: int| 0 <= k < before.len() && before[k] == t;
                            assert(texts(kept@)[k] == t);
                        } else {
                            assert(texts(kept@)[before.len() as int] == t);
                        }
                    }
                }
            }
            i += 1;
        }
        assert(texts(self.ids@).take(self.ids.len() as int) == texts(self.ids@));
        self.ids = kept;
        assert(self@ =~= old(self)@.remove(id@));
    }
}

/// The table that the keys and values, last entry last, stand for. A later
/// entry overrides an earlier one with the same key.
pub open spec fn table_of(keys: Seq<Text>, stamps: Seq<i64>) -> Map<Text, i64>
    decreases keys.len(),
{
    if keys.len() == 0 || stamps.len() != keys.len() {
        Map::empty()
    } else {
        table_of(keys.drop_last(), stamps.drop_last()).insert(keys.last(), stamps.last())
    }
}

/// A table from identifiers to time stamps.
#[derive(Debug)]
pub struct StampMap {
    keys: Vec<String>,
    stamps: Vec<i64>,
}

impl View for StampMap {
    type V = Map<Text, i64>;

    closed spec fn view(&self) -> Map<Text, i64> {
        table_of(texts(self.keys@), self.stamps@)
    }
}

/// A key that is not among the keys is not in the table.
proof fn lemma_table_absent(keys: Seq<Text>, stamps: Seq<i64>, k: Text)
    requires
        forall|i: int| 0 <= i < keys.len() ==> #[trigger] keys[i] != k,
    ensures
        !table_of(keys, stamps).contains_key(k),
    decreases keys.len(),
{
    if keys.len() > 0 && stamps.len() == keys.len() {
        assert forall|i: int| 0 <= i < keys.len() - 1 implies #[trigger] keys.drop_last()[i]
            != k by {
            assert(keys.drop_last()[i] == keys[i]);
        }
        lemma_table_absent(keys.drop_last(), stamps.drop_last(), k);
    }
}

/// With no key twice, each key stands with its own value.
proof fn lemma_table_entry(keys: Seq<Text>, stamps: Seq<i64>, i: int)
    requires
        keys.len() == stamps.len(),
        0 <= i < keys.len(),
        forall|a: int, b: int| 0 <= a < b < keys.len() ==> keys[a] != keys[b],
    ensures
        table_of(keys, stamps).contains_key(keys[i]),
        table_of(keys, stamps)[keys[i]] == stamps[i],
    decreases keys.len(),
{
    if i < keys.len() - 1 {
        let k2 = keys.drop_last();
        assert forall|a: int, b: int| 0 <= a < b < k2.len() implies k2[a] != k2[b] by {
            assert(k2[a] == keys[a] && k2[b] == keys[b]);
        }
        lemma_table_entry(k2, stamps.drop_last(), i);
        assert(keys[i] != keys.last());
    }
}

/// With no key twice, a new value in place is the table with that entry put
/// in.
proof fn lemma_table_update(keys: Seq<Text>, stamps: Seq<i64>, i: int, v: i64)
    requires
        keys.len() == stamps.len(),
        0 <= i < keys.len(),
        forall|a: int, b: int| 0 <= a < b < keys.len() ==> keys[a] != keys[b],
    ensures
        table_of(keys, stamps.update(i, v)) == table_of(keys, stamps).insert(keys[i], v),
    decreases keys.len(),
{
    let k2 = keys.drop_last();
    let s2 = stamps.drop_last();
    if i == keys.len() - 1 {
        assert(stamps.update(i, v).drop_last() == s2);
        assert(table_of(keys, stamps.update(i, v)) =~= table_of(keys, stamps).insert(keys[i], v));
    } else {
        assert forall|a: int, b: int| 0 <= a < b < k2.len() implies k2[a] != k2[b] by {
            assert(k2[a] == keys[a] && k2[b] == keys[b]);
        }
        lemma_table_update(k2, s2, i, v);
        assert(stamps.update(i, v).drop_last() == s2.update(i, v));
        assert(keys[i] != keys.last());
        assert(k2[i] == keys[i]);
        assert(table_of(keys, stamps.update(i, v)) =~= table_of(keys, stamps).insert(keys[i], v));
    }
}

impl StampMap {
    /// Whether the table is sound: one stamp for each key, no key twice.
    pub closed spec fn wf(&self) -> bool {
        &&& self.keys@.len() == self.stamps@.len()
        &&& forall|a: int, b: int|
            0 <= a < b < self.keys@.len() ==> texts(self.keys@)[a] != texts(self.keys@)[b]
    }

    /// The empty table.
    pub fn new() -> (r: Self)
        ensures
            r.wf(),
            r@ == Map::<Text, i64>::empty(),
    {
        StampMap { keys: Vec::new(), stamps: Vec::new() }
    }

    fn position(&self, id: &str) -> (r: Option<usize>)
        requires
            self.wf(),
        ensures
            match r {
                Some(i) => i < self.keys@.len() && self.keys@[i as int]@ == id@,
                None => forall|k: int| 0 <= k < self.keys@.len() ==> #[trigger] texts(self.keys@)[k] != id@,
            },
    {
        let mut i: usize = 0;
        while i < self.keys.len()
            invariant
                i <= self.keys.len(),
                forall|k: int| 0 <= k < i ==> #[trigger] texts(self.keys@)[k] != id@,
            decreases self.keys.len() - i,
        {
            if text_eq(self.keys[i].as_str(), id) {
                return Some(i);
            }
            i += 1;
        }
        None
    }

    /// The stamp of `id`, if it has one.
    pub fn get(&self, id: &str) -> (r: Option<i64>)
        requires
            self.wf(),
        ensures
            r == if self@.contains_key(id@) {
                Some(self@[id@])
            } else {
                None
            },
    {
        match self.position(id) {
            Some(i) => {
                proof {
                    lemma_table_entry(texts(self.keys@), self.stamps@, i as int);
                }
                Some(self.stamps[i])
            },
            None => {
                proof {
                    lemma_table_absent(texts(self.keys@), self.stamps@, id@);
                }
                None
            },
        }
    }

    /// Sets the stamp of `id`.
    pub fn insert(&mut self, id: &str, stamp: i64)
        requires
            old(self).wf(),
        ensures
            final(self).wf(),
            final(self)@ == old(self)@.insert(id@, stamp),
    {
        match self.position(id) {
            Some(i) => {
                proof {
                    lemma_table_update(texts(self.keys@), self.stamps@, i as int, stamp);
                }
                self.stamps.set(i, stamp);
            },
            None => {
                let ghost before = texts(self.keys@);
                self.keys.push(id.to_owned());
                self.stamps.push(stamp);
                assert(texts(self.keys@) =~= before.push(id@));
                assert(texts(self.keys@).drop_last() == before);
                assert(self.stamps@.drop_last() == old(self).stamps@);
            },
        }
    }
}

} // verus!
