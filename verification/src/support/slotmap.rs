//! Arena storage for compiler entities.
//!
//! A [`PrimaryMap`] owns the values of one entity kind and hands out opaque
//! [`Key`]s for them; a [`SecondaryMap`] attaches auxiliary data to the keys
//! of some primary map, and reading a key that was never inserted fails
//! rather than yielding a silent default.

use vstd::prelude::*;

verus! {

/// An opaque, copyable handle for one arena slot.
///
/// A key wraps a small unsigned index. The largest representable index is
/// reserved as the "none" sentinel; `new` never returns it, so every key
/// minted for a real slot compares unequal to `none_val`.
pub trait Key: Sized + Copy {
    /// The slot index this key stands for.
    spec fn key_id(self) -> int;

    /// The reserved sentinel index.
    spec fn none_id() -> int;

    /// Every key's index lies between zero and the sentinel.
    proof fn key_id_in_range(self)
        ensures
            0 <= self.key_id() <= Self::none_id(),
            Self::none_id() <= usize::MAX,
    ;

    fn new(v: usize) -> (k: Self)
        requires
            v < Self::none_id(),
        ensures
            k.key_id() == v,
    ;

    fn index(&self) -> (i: usize)
        ensures
            i == self.key_id(),
    ;

    fn none_val() -> (k: Self)
        ensures
            k.key_id() == Self::none_id(),
    ;

    fn is_none(self) -> (r: bool)
        ensures
            r == (self.key_id() == Self::none_id()),
    ;
}

/// Insertion-ordered, append-or-reuse storage for one entity kind.
///
/// `insert` either appends or reuses a slot from the internal free list; a
/// key stays valid for lookups until the owning pass deliberately recycles
/// its slot. The view is the sequence of stored values, indexed by key.
pub struct PrimaryMap<K: Key, V> {
    values: Vec<V>,
    freelist: Vec<K>,
}

impl<K: Key, V> PrimaryMap<K, V> {
    /// The stored values, indexed by `Key::key_id`.
    pub closed spec fn view(&self) -> Seq<V> {
        self.values@
    }

    /// How many freed slots are waiting for reuse.
    pub closed spec fn n_free(&self) -> nat {
        self.freelist@.len()
    }

    /// Every free-list entry points at an existing slot.
    pub closed spec fn wf(&self) -> bool {
        forall|i: int|
            0 <= i < self.freelist@.len() ==> 0 <= (#[trigger] self.freelist@[i]).key_id()
                < self.values@.len()
    }

    pub fn new() -> (m: Self)
        ensures
            m@ == Seq::<V>::empty(),
            m.n_free() == 0,
            m.wf(),
    {
        Self { values: Vec::new(), freelist: Vec::new() }
    }

    /// Stores `val` and returns its key: a recycled slot if the free list
    /// holds one, a fresh slot appended at the end otherwise.
    pub fn insert(&mut self, val: V) -> (k: K)
        requires
            old(self).wf(),
            old(self)@.len() < K::none_id(),
        ensures
            final(self).wf(),
            0 <= k.key_id() < final(self)@.len(),
            final(self)@[k.key_id()] == val,
            final(self).n_free() == if old(self).n_free() == 0 {
                0
            } else {
                (old(self).n_free() - 1) as nat
            },
            old(self).n_free() == 0 ==> final(self)@ == old(self)@.push(val) && k.key_id()
                == old(self)@.len(),
            old(self).n_free() != 0 ==> final(self)@ == old(self)@.update(k.key_id(), val)
                && k.key_id() < old(self)@.len(),
    {
        match self.freelist.pop() {
            Some(key) => {
                let i = key.index();
                self.values[i] = val;
                key
            },
            None => {
                self.values.push(val);
                K::new(self.values.len() - 1)
            },
        }
    }

    /// How many slots the arena holds.
    pub fn len(&self) -> (n: usize)
        ensures
            n == self@.len(),
    {
        self.values.len()
    }

    /// Looks a key up. Using a key against an arena that never minted it is
    /// a caller bug; the contract rules it out.
    pub fn get(&self, k: K) -> (v: &V)
        requires
            0 <= k.key_id() < self@.len(),
        ensures
            *v == self@[k.key_id()],
    {
        let i = k.index();
        &self.values[i]
    }

    /// Overwrites the slot `k` points at.
    pub fn set(&mut self, k: K, val: V)
        requires
            0 <= k.key_id() < old(self)@.len(),
        ensures
            final(self)@ == old(self)@.update(k.key_id(), val),
            final(self).n_free() == old(self).n_free(),
            old(self).wf() ==> final(self).wf(),
    {
        let i = k.index();
        self.values[i] = val;
    }

    /// Swaps `val` into the slot `k` points at and hands the old value back.
    pub fn replace(&mut self, k: K, val: V) -> (v: V)
        requires
            0 <= k.key_id() < old(self)@.len(),
        ensures
            v == old(self)@[k.key_id()],
            final(self)@ == old(self)@.update(k.key_id(), val),
            final(self).n_free() == old(self).n_free(),
            old(self).wf() ==> final(self).wf(),
    {
        let i = k.index();
        let mut tmp = val;
        core::mem::swap(&mut tmp, &mut self.values[i]);
        tmp
    }
}

/// A side table keyed by some arena's key type.
///
/// The backing storage grows on demand up to the highest key inserted so
/// far; slots never written stay empty, and reading one fails with `None`
/// instead of producing a default value.
pub struct SecondaryMap<K: Key, V> {
    values: Vec<Option<V>>,
    phantom: core::marker::PhantomData<K>,
}

impl<K: Key, V> SecondaryMap<K, V> {
    /// The associations present, as a map from slot index to value.
    pub closed spec fn view(&self) -> Map<int, V> {
        Map::new(
            |i: int| 0 <= i < self.values@.len() && self.values@[i] is Some,
            |i: int| self.values@[i]->Some_0,
        )
    }

    pub fn new() -> (m: Self)
        ensures
            m@ == Map::<int, V>::empty(),
    {
        let m = Self { values: Vec::new(), phantom: core::marker::PhantomData };
        proof {
            assert(m@ =~= Map::<int, V>::empty());
        }
        m
    }

    /// Associates `val` with `key`, growing the backing storage as needed.
    pub fn insert(&mut self, key: K, val: V) -> (r: K)
        requires
            0 <= key.key_id() < usize::MAX,
        ensures
            r == key,
            final(self)@ == old(self)@.insert(key.key_id(), val),
    {
        let i = key.index();
        let ghost orig = self.values@;
        while self.values.len() <= i
            invariant
                i < usize::MAX,
                self.values@.len() >= orig.len(),
                forall|j: int| 0 <= j < orig.len() ==> self.values@[j] == orig[j],
                forall|j: int| orig.len() <= j < self.values@.len() ==> self.values@[j] is None,
            decreases i + 1 - self.values@.len(),
        {
            self.values.push(None);
        }
        self.values[i] = Some(val);
        proof {
            assert(self@ =~= old(self)@.insert(key.key_id(), val));
        }
        key
    }

    /// Looks a key up: `Some` exactly when the key was inserted before.
    pub fn get(&self, key: K) -> (r: Option<&V>)
        ensures
            r is Some <==> self@.contains_key(key.key_id()),
            r matches Some(v) ==> *v == self@[key.key_id()],
    {
        let i = key.index();
        if i < self.values.len() {
            match &self.values[i] {
                Some(v) => Some(v),
                None => None,
            }
        } else {
            None
        }
    }
}

} // verus!
