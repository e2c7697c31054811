//! A table of values that are found by a connection ID.
use vstd::prelude::*;

use crate::bytes::bytes_eq;

verus! {

/// Values that are found by a connection ID.
///
/// No connection ID occurs twice, and the entries stay in the order in which
/// their connection IDs came.
pub struct IdTable<V> {
    entries: Vec<(Vec<u8>, V)>,
}

/// What is left of `s` when only the positions marked in `keep` stay.
pub open spec fn kept<T>(s: Seq<T>, keep: Seq<bool>) -> Seq<T>
    decreases s.len(),
{
    if s.len() == 0 {
        Seq::empty()
    } else if keep[s.len() - 1] {
        kept(s.drop_last(), keep).push(s.last())
    } else {
        kept(s.drop_last(), keep)
    }
}

/// Position `i` of `s` is marked and holds `x`.
spec fn marked_at<T>(s: Seq<T>, keep: Seq<bool>, x: T, i: int) -> bool {
    0 <= i < s.len() && keep[i] && s[i] == x
}

proof fn kept_members<T>(s: Seq<T>, keep: Seq<bool>)
    ensures
        kept(s, keep).len() <= s.len(),
        forall|x: T| #[trigger]
            kept(s, keep).contains(x) <==> exists|i: int| marked_at(s, keep, x, i),
    decreases s.len(),
{
    if s.len() > 0 {
        let init = s.drop_last();
        let prev = kept(init, keep);
        let all = kept(s, keep);
        let n = s.len() - 1;
        kept_members(init, keep);
        assert forall|x: T| #[trigger] all.contains(x) implies exists|i: int|
            marked_at(s, keep, x, i) by {
            let j = choose|j: int| 0 <= j < all.len() && all[j] == x;
            if j < prev.len() {
                assert(prev[j] == x);
                assert(prev.contains(x));
                let i = choose|i: int| marked_at(init, keep, x, i);
                assert(marked_at(s, keep, x, i));
            } else {
                assert(marked_at(s, keep, x, n));
            }
        }
        assert forall|x: T| (exists|i: int| marked_at(s, keep, x, i)) implies #[trigger]
            all.contains(x) by {
            let i = choose|i: int| marked_at(s, keep, x, i);
            if i < n {
                assert(marked_at(init, keep, x, i));
                assert(prev.contains(x));
                let j = choose|j: int| 0 <= j < prev.len() && prev[j] == x;
                assert(all[j] == x);
            } else {
                assert(all[all.len() - 1] == x);
            }
        }
    }
}

/// Dropping positions keeps what is left in order, so it makes no two equal
/// members of a duplicate-free sequence.
proof fn kept_no_duplicates<T>(s: Seq<T>, keep: Seq<bool>)
    requires
        s.no_duplicates(),
    ensures
        kept(s, keep).no_duplicates(),
    decreases s.len(),
{
    if s.len() > 0 {
        let init = s.drop_last();
        kept_no_duplicates(init, keep);
        kept_members(init, keep);
        assert forall|a: int, b: int|
            0 <= a < b < kept(s, keep).len() implies kept(s, keep)[a] != kept(s, keep)[b] by {
            let prev = kept(init, keep);
            if b == prev.len() {
                assert(prev.contains(prev[a]));
                let i = choose|i: int| marked_at(init, keep, prev[a], i);
                assert(s[i] == prev[a]);
            }
        }
    }
}

/// Dropping positions keeps the rest in its order: of two that stay, the one that
/// came first still does. A position that is not marked is gone, and nothing else.
pub proof fn what_is_kept_stays_in_order<T>(s: Seq<T>, keep: Seq<bool>, a: int, b: int)
    requires
        s.no_duplicates(),
        0 <= a < b < s.len(),
    ensures
        kept(s, keep).contains(s[a]) <==> keep[a],
        kept(s, keep).contains(s[b]) <==> keep[b],
        keep[a] && keep[b] ==> exists|i: int, j: int|
            0 <= i < j < kept(s, keep).len() && #[trigger] kept(s, keep)[i] == s[a]
                && #[trigger] kept(s, keep)[j] == s[b],
    decreases s.len(),
{
    kept_members(s, keep);
    assert(keep[a] ==> marked_at(s, keep, s[a], a));
    assert(keep[b] ==> marked_at(s, keep, s[b], b));
    let init = s.drop_last();
    let prev = kept(init, keep);
    if keep[a] && keep[b] {
        if b < s.len() - 1 {
            what_is_kept_stays_in_order(init, keep, a, b);
            let (i, j) = choose|i: int, j: int|
                0 <= i < j < prev.len() && #[trigger] prev[i] == init[a] && #[trigger] prev[j]
                    == init[b];
            assert(kept(s, keep)[i] == s[a] && kept(s, keep)[j] == s[b]);
        } else {
            kept_members(init, keep);
            assert(marked_at(init, keep, s[a], a));
            assert(prev.contains(s[a]));
            let i = choose|i: int| 0 <= i < prev.len() && prev[i] == s[a];
            let j = prev.len() as int;
            assert(kept(s, keep)[i] == s[a] && kept(s, keep)[j] == s[b]);
        }
    }
}

proof fn kept_map_values<T, U>(s: Seq<T>, keep: Seq<bool>, f: spec_fn(T) -> U)
    ensures
        kept(s, keep).map_values(f) == kept(s.map_values(f), keep),
    decreases s.len(),
{
    if s.len() > 0 {
        kept_map_values(s.drop_last(), keep, f);
        assert(s.map_values(f).drop_last() =~= s.drop_last().map_values(f));
        assert(kept(s, keep).map_values(f) =~= kept(s.map_values(f), keep));
    } else {
        assert(kept(s, keep).map_values(f) =~= kept(s.map_values(f), keep));
    }
}

impl<V> View for IdTable<V> {
    type V = Map<Seq<u8>, V>;

    closed spec fn view(&self) -> Map<Seq<u8>, V> {
        Map::new(
            |id: Seq<u8>| self.order().contains(id),
            |id: Seq<u8>| self.entries@[self.order().index_of(id)].1,
        )
    }
}

impl<V> IdTable<V> {
    /// The connection IDs in the table, in the order in which they came.
    pub closed spec fn order(&self) -> Seq<Seq<u8>> {
        self.entries@.map_values(|e: (Vec<u8>, V)| e.0@)
    }

    /// No connection ID occurs twice.
    pub closed spec fn wf(&self) -> bool {
        self.order().no_duplicates()
    }

    /// The values are those of the connection IDs in [`IdTable::order`], each
    /// of which occurs once there.
    pub proof fn order_is_domain(&self)
        requires
            self.wf(),
        ensures
            self.order().no_duplicates(),
            forall|id: Seq<u8>| #[trigger] self@.contains_key(id) <==> self.order().contains(id),
            forall|i: int|
                0 <= i < self.order().len() ==> self@.contains_key(#[trigger] self.order()[i]),
    {
        assert forall|i: int| 0 <= i < self.order().len() implies self@.contains_key(
            #[trigger] self.order()[i],
        ) by {
            assert(self.order().contains(self.order()[i]));
        }
    }

    proof fn value_at_position(&self, i: int)
        requires
            self.wf(),
            0 <= i < self.entries@.len(),
        ensures
            self@.contains_key(self.entries@[i].0@),
            self@[self.entries@[i].0@] == self.entries@[i].1,
    {
        let id = self.entries@[i].0@;
        assert(self.order()[i] == id);
        assert(self.order().contains(id));
        let k = self.order().index_of(id);
        assert(self.order()[k] == id);
        assert(k == i);
    }

    proof fn changed_at_position(&self, after: Self, i: int, value: V)
        requires
            self.wf(),
            0 <= i < self.entries@.len(),
            after.entries@ == self.entries@.update(i, (self.entries@[i].0, value)),
        ensures
            after.wf(),
            after.order() == self.order(),
            after@ == self@.insert(self.order()[i], value),
    {
        let id = self.order()[i];
        self.value_at_position(i);
        assert(after.order() =~= self.order());
        assert forall|k: Seq<u8>| after@.contains_key(k) implies after@[k] == self@.insert(
            id,
            value,
        )[k] by {
            let j = after.order().index_of(k);
            after.value_at_position(j);
            self.value_at_position(j);
        }
        assert(after@ =~= self@.insert(id, value));
    }

    /// An empty table.
    pub fn new() -> (table: Self)
        ensures
            table.wf(),
            table@ == Map::<Seq<u8>, V>::empty(),
            table.order().len() == 0,
    {
        let table = IdTable { entries: Vec::new() };
        assert(table@ =~= Map::<Seq<u8>, V>::empty());
        table
    }

    /// Number of entries.
    pub fn len(&self) -> (n: usize)
        ensures
            n == self.order().len(),
    {
        self.entries.len()
    }

    /// The position of a connection ID, if it is in the table.
    pub fn position(&self, id: &[u8]) -> (pos: Option<usize>)
        requires
            self.wf(),
        ensures
            match pos {
                Some(i) => i < self.order().len() && self.order()[i as int] == id@
                    && self@.contains_key(id@),
                None => !self@.contains_key(id@),
            },
    {
        let mut i: usize = 0;
        while i < self.entries.len()
            invariant
                self.wf(),
                i <= self.entries@.len(),
                forall|j: int| 0 <= j < i ==> (#[trigger] self.entries@[j]).0@ != id@,
            decreases self.entries@.len() - i,
        {
            if bytes_eq(self.entries[i].0.as_slice(), id) {
                proof {
                    self.value_at_position(i as int);
                }
                return Some(i);
            }
            i += 1;
        }
        proof {
            if self.order().contains(id@) {
                let j = choose|j: int| 0 <= j < self.order().len() && self.order()[j] == id@;
                assert(self.entries@[j].0@ == id@);
            }
        }
        None
    }

    /// Whether a connection ID is in the table.
    pub fn contains(&self, id: &[u8]) -> (found: bool)
        requires
            self.wf(),
        ensures
            found == self@.contains_key(id@),
    {
        self.position(id).is_some()
    }

    /// The connection ID at a position.
    pub fn id_at(&self, i: usize) -> (id: &Vec<u8>)
        requires
            i < self.order().len(),
        ensures
            id@ == self.order()[i as int],
    {
        &self.entries[i].0
    }

    /// The value at a position.
    pub fn value_at(&self, i: usize) -> (value: &V)
        requires
            self.wf(),
            i < self.order().len(),
        ensures
            *value == self@[self.order()[i as int]],
    {
        proof {
            self.value_at_position(i as int);
        }
        &self.entries[i].1
    }

    /// The value at a position, to be changed in place.
    pub fn value_mut(&mut self, i: usize) -> (value: &mut V)
        requires
            old(self).wf(),
            i < old(self).order().len(),
        ensures
            *value == old(self)@[old(self).order()[i as int]],
            final(self)@ == old(self)@.insert(old(self).order()[i as int], *final(value)),
            final(self).order() == old(self).order(),
            final(self).wf(),
    {
        proof {
            let before = *self;
            let id = before.order()[i as int];
            before.value_at_position(i as int);
            assert forall|after: Self, value: V|
                #![trigger after@, before@.insert(id, value)]
                after.entries@ == before.entries@.update(
                    i as int,
                    (before.entries@[i as int].0, value),
                ) implies after.wf() && after.order() == before.order() && after@
                == before@.insert(id, value) by {
                before.changed_at_position(after, i as int, value);
            }
        }
        &mut self.entries[i].1
    }

    /// Stores a value under a connection ID, in place of the one there if any.
    pub fn insert(&mut self, id: Vec<u8>, value: V)
        requires
            old(self).wf(),
        ensures
            final(self).wf(),
            final(self)@ == old(self)@.insert(id@, value),
            final(self).order() == if old(self)@.contains_key(id@) {
                old(self).order()
            } else {
                old(self).order().push(id@)
            },
    {
        let ghost before = *self;
        match self.position(id.as_slice()) {
            Some(i) => {
                *self.value_mut(i) = value;
            },
            None => {
                self.entries.push((id, value));
                proof {
                    assert(self.order() =~= before.order().push(id@));
                    assert(!before.order().contains(id@));
                    assert(self.wf());
                    assert(self@ =~= before@.insert(id@, value)) by {
                        assert(self.order()[before.order().len() as int] == id@);
                        assert forall|k: Seq<u8>|
                            self@.contains_key(k) == before@.insert(id@, value).contains_key(k) by {
                            if before@.contains_key(k) {
                                let j = before.order().index_of(k);
                                assert(self.order()[j] == k);
                            }
                            if self.order().contains(k) && k != id@ {
                                let j = self.order().index_of(k);
                                assert(before.order()[j] == k);
                            }
                        }
                        assert forall|k: Seq<u8>| self@.contains_key(k) implies self@[k]
                            == before@.insert(id@, value)[k] by {
                            let j = self.order().index_of(k);
                            self.value_at_position(j);
                            if j < before.entries@.len() {
                                before.value_at_position(j);
                            }
                        }
                    }
                }
            },
        }
    }

    /// Drops the entries whose position is not marked in `keep`.
    pub fn retain(&mut self, keep: &Vec<bool>)
        requires
            old(self).wf(),
            keep@.len() == old(self).order().len(),
        ensures
            final(self).wf(),
            final(self).order() == kept(old(self).order(), keep@),
            final(self)@.submap_of(old(self)@),
            forall|i: int|
                0 <= i < old(self).order().len() ==> (final(self)@.contains_key(
                    #[trigger] old(self).order()[i],
                ) <==> keep@[i]),
    {
        let ghost before = *self;
        let ghost all = self.entries@;
        let mut i: usize = 0;
        let mut j: usize = 0;
        assert(all.take(0) =~= Seq::empty());
        assert(all.skip(0) =~= all);
        while j < keep.len()
            invariant
                all == before.entries@,
                keep@.len() == all.len(),
                j <= keep@.len(),
                i == kept(all.take(j as int), keep@).len(),
                i <= j,
                self.entries@ == kept(all.take(j as int), keep@) + all.skip(j as int),
            decreases keep@.len() - j,
        {
            let ghost done = kept(all.take(j as int), keep@);
            assert(all.take(j + 1).drop_last() =~= all.take(j as int));
            assert(all.take(j + 1).last() == all[j as int]);
            if keep[j] {
                assert(done.push(all[j as int]) + all.skip(j + 1) =~= done + all.skip(j as int));
                i += 1;
            } else {
                self.entries.remove(i);
                assert(self.entries@ =~= done + all.skip(j + 1));
            }
            j += 1;
        }
        proof {
            let f = |e: (Vec<u8>, V)| e.0@;
            assert(all.take(j as int) =~= all);
            assert(all.skip(j as int) =~= Seq::empty());
            assert(self.entries@ =~= kept(all, keep@));
            kept_map_values(all, keep@, f);
            kept_no_duplicates(before.order(), keep@);
            kept_members(all, keep@);
            kept_members(before.order(), keep@);
            assert(self.order() =~= kept(before.order(), keep@));
            assert forall|k: Seq<u8>| #[trigger] self@.contains_key(k) implies before@.contains_key(
                k,
            ) && self@[k] == before@[k] by {
                let a = self.order().index_of(k);
                self.value_at_position(a);
                assert(kept(all, keep@).contains(self.entries@[a]));
                let b = choose|b: int| marked_at(all, keep@, self.entries@[a], b);
                before.value_at_position(b);
            }
            assert(self@.submap_of(before@));
            assert forall|p: int| 0 <= p < before.order().len() implies (self@.contains_key(
                #[trigger] before.order()[p],
            ) <==> keep@[p]) by {
                let id = before.order()[p];
                if keep@[p] {
                    assert(marked_at(before.order(), keep@, id, p));
                }
                if self@.contains_key(id) {
                    let b = choose|b: int| marked_at(before.order(), keep@, id, b);
                    assert(b == p);
                }
            }
        }
    }
}

} // verus!
