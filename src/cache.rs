use vstd::prelude::*;

verus! {

/// A logical key under which a resource is cached. Two keys denote the same
/// resource exactly when their views are equal.
pub trait ResourceKey: View + Sized {
    fn same_key(&self, other: &Self) -> (r: bool)
        ensures
            r == (self@ == other@),
    ;

    fn duplicate(&self) -> (r: Self)
        ensures
            r@ == self@,
    ;
}

impl ResourceKey for String {
    fn same_key(&self, other: &Self) -> (r: bool) {
        *self == *other
    }

    fn duplicate(&self) -> (r: Self) {
        self.clone()
    }
}

/// What `get_or_create` leaves in a cache holding `m`, when the loader for a
/// missing `key` has produced `outcome`.
pub open spec fn after_load<K, V, E>(m: Map<K, V>, key: K, outcome: Result<V, E>) -> Map<K, V> {
    match outcome {
        Ok(v) => m.insert(key, v),
        Err(_) => m,
    }
}

/// At most one load per key: as long as no load of `k` has failed, the loader
/// has run for `k` once if the cache holds it and not at all otherwise. Every
/// call of `get_or_create` keeps the cache well formed, and one for a key the
/// cache holds runs no loader, so this holds after any number of calls.
pub proof fn lemma_at_most_one_load<K: ResourceKey, V>(c: &ResourceCache<K, V>, k: K::V)
    requires
        c.wf(),
        c.failure_count(k) == 0,
    ensures
        c.load_count(k) <= 1,
        c.load_count(k) == 1 <==> c@.contains_key(k),
{
    if c@.contains_key(k) {
        assert(c.model@.contains_key(k));
    } else {
        assert(!c.model@.contains_key(k));
    }
}

/// The loader has run for `k` once more than it failed when the cache holds
/// `k`, and exactly as often as it failed when it does not.
pub proof fn lemma_load_balance<K: ResourceKey, V>(c: &ResourceCache<K, V>, k: K::V)
    requires
        c.wf(),
    ensures
        c@.contains_key(k) ==> c.load_count(k) == c.failure_count(k) + 1,
        !c@.contains_key(k) ==> c.load_count(k) == c.failure_count(k),
{
    if c@.contains_key(k) {
        assert(c.model@.contains_key(k));
    } else {
        assert(!c.model@.contains_key(k));
    }
}

/// Retry on failure: a failed load leaves the key missing, so the next request
/// loads again; once a load succeeds the cache holds its result.
pub proof fn lemma_retry_after_failure<K, V, E>(m: Map<K, V>, k: K, e: E, v: V)
    requires
        !m.contains_key(k),
    ensures
        !after_load(m, k, Err::<V, E>(e)).contains_key(k),
        after_load(after_load(m, k, Err::<V, E>(e)), k, Ok::<V, E>(v)).contains_key(k),
        after_load(after_load(m, k, Err::<V, E>(e)), k, Ok::<V, E>(v))[k] == v,
{
}

/// A de-duplicating store of expensive resources, created on first request
/// and kept until the cache itself is dropped.
///
/// Besides the resources, the cache keeps count (in ghost state) of how many
/// times a loader ran for each key and how many of those runs failed.
pub struct ResourceCache<K: View, V> {
    entries: Vec<(K, V)>,
    model: Ghost<Map<K::V, V>>,
    loads: Ghost<Map<K::V, nat>>,
    failures: Ghost<Map<K::V, nat>>,
}

/// A counter per key, reading 0 for a key never counted.
pub open spec fn count_of<K>(m: Map<K, nat>, k: K) -> nat {
    if m.contains_key(k) {
        m[k]
    } else {
        0
    }
}

impl<K: View, V> View for ResourceCache<K, V> {
    type V = Map<K::V, V>;

    closed spec fn view(&self) -> Map<K::V, V> {
        self.model@
    }
}

impl<K: ResourceKey, V> ResourceCache<K, V> {
    /// How many times a loader has run for `k`.
    pub closed spec fn load_count(&self, k: K::V) -> nat {
        count_of(self.loads@, k)
    }

    /// How many of the loader runs for `k` failed.
    pub closed spec fn failure_count(&self, k: K::V) -> nat {
        count_of(self.failures@, k)
    }

    pub closed spec fn wf(&self) -> bool {
        &&& forall|i: int, j: int|
            0 <= i < j < self.entries@.len() ==> self.entries@[i].0@ != self.entries@[j].0@
        &&& forall|i: int|
            0 <= i < self.entries@.len() ==> {
                &&& self.model@.contains_key(#[trigger] self.entries@[i].0@)
                &&& self.model@[self.entries@[i].0@] == self.entries@[i].1
            }
        &&& forall|k: K::V|
            #[trigger] self.model@.contains_key(k) ==> exists|i: int|
                0 <= i < self.entries@.len() && #[trigger] self.entries@[i].0@ == k
        &&& forall|k: K::V|
            #[trigger] self.model@.contains_key(k) ==> self.load_count(k) == self.failure_count(k)
                + 1
        &&& forall|k: K::V|
            !#[trigger] self.model@.contains_key(k) ==> self.load_count(k) == self.failure_count(
                k,
            )
    }

    pub fn new() -> (r: Self)
        ensures
            r.wf(),
            r@ == Map::<K::V, V>::empty(),
            forall|k: K::V| r.load_count(k) == 0 && r.failure_count(k) == 0,
    {
        ResourceCache {
            entries: Vec::new(),
            model: Ghost(Map::empty()),
            loads: Ghost(Map::empty()),
            failures: Ghost(Map::empty()),
        }
    }

    /// The number of resources held.
    pub fn len(&self) -> (r: usize)
        requires
            self.wf(),
        ensures
            r == self@.len(),
    {
        proof {
            self.lemma_len();
        }
        self.entries.len()
    }

    proof fn lemma_len(&self)
        requires
            self.wf(),
        ensures
            self.model@.dom().finite(),
            self.model@.len() == self.entries@.len(),
    {
        let keys = Seq::new(self.entries@.len(), |i: int| self.entries@[i].0@);
        assert(keys.no_duplicates());
        keys.unique_seq_to_set();
        assert(keys.to_set() =~= self.model@.dom()) by {
            assert forall|k: K::V| self.model@.dom().contains(k) implies keys.to_set().contains(
                k,
            ) by {
                let i = choose|i: int| 0 <= i < self.entries@.len() && self.entries@[i].0@ == k;
                assert(keys[i] == k);
            }
            assert forall|k: K::V| keys.to_set().contains(k) implies self.model@.dom().contains(
                k,
            ) by {
                let i = choose|i: int| 0 <= i < keys.len() && keys[i] == k;
                assert(self.model@.contains_key(self.entries@[i].0@));
            }
        }
    }

    fn find(&self, key: &K) -> (r: Option<usize>)
        requires
            self.wf(),
        ensures
            match r {
                Some(i) => i < self.entries@.len() && self.entries@[i as int].0@ == key@,
                None => !self@.contains_key(key@),
            },
    {
        let mut i: usize = 0;
        while i < self.entries.len()
            invariant
                self.wf(),
                i <= self.entries@.len(),
                forall|j: int| 0 <= j < i ==> self.entries@[j].0@ != key@,
            decreases self.entries@.len() - i,
        {
            if self.entries[i].0.same_key(key) {
                return Some(i);
            }
            i = i + 1;
        }
        None
    }

    /// Whether a resource is held under `key`.
    pub fn contains(&self, key: &K) -> (r: bool)
        requires
            self.wf(),
        ensures
            r == self@.contains_key(key@),
    {
        match self.find(key) {
            Some(_) => true,
            None => false,
        }
    }

    /// The resource held under `key`, if any; never loads.
    pub fn get(&self, key: &K) -> (r: Option<&V>)
        requires
            self.wf(),
        ensures
            match r {
                Some(v) => self@.contains_key(key@) && *v == self@[key@],
                None => !self@.contains_key(key@),
            },
    {
        match self.find(key) {
            Some(i) => Some(&self.entries[i].1),
            None => None,
        }
    }

    /// Returns the resource held under `key`, running `loader` first when
    /// there is none. A failed load stores nothing, so a later call retries.
    pub fn get_or_create<E, F: Fn(&K) -> Result<V, E>>(&mut self, key: K, loader: &F) -> (r:
        Result<&V, E>)
        requires
            old(self).wf(),
            loader.requires((&key,)),
        ensures
            final(self).wf(),
            old(self)@.contains_key(key@) ==> {
                &&& final(self)@ == old(self)@
                &&& r matches Ok(v) && *v == old(self)@[key@]
                &&& forall|k: K::V|
                    final(self).load_count(k) == old(self).load_count(k)
                        && final(self).failure_count(k) == old(self).failure_count(k)
            },
            !old(self)@.contains_key(key@) ==> {
                &&& final(self).load_count(key@) == old(self).load_count(key@) + 1
                &&& match r {
                    Ok(v) => {
                        &&& loader.ensures((&key,), Ok::<V, E>(*v))
                        &&& final(self)@ == after_load(old(self)@, key@, Ok::<V, E>(*v))
                        &&& final(self).failure_count(key@) == old(self).failure_count(key@)
                    },
                    Err(e) => {
                        &&& loader.ensures((&key,), Err::<V, E>(e))
                        &&& final(self)@ == after_load(old(self)@, key@, Err::<V, E>(e))
                        &&& final(self).failure_count(key@) == old(self).failure_count(key@) + 1
                    },
                }
                &&& forall|k: K::V|
                    k != key@ ==> final(self).load_count(k) == old(self).load_count(k)
                        && final(self).failure_count(k) == old(self).failure_count(k)
            },
    {
        match self.find(&key) {
            Some(i) => {
                return Ok(&self.entries[i].1);
            },
            None => {},
        }
        let ghost before = *self;
        let outcome = loader(&key);
        let ghost k = key@;
        proof {
            self.loads@ = self.loads@.insert(k, count_of(self.loads@, k) + 1);
        }
        match outcome {
            Ok(v) => {
                proof {
                    self.model@ = self.model@.insert(k, v);
                }
                self.entries.push((key, v));
                let n = self.entries.len() - 1;
                proof {
                    assert(self.entries@[n as int].0@ == k);
                    assert forall|kk: K::V| #[trigger]
                        self.model@.contains_key(kk) implies exists|i: int|
                        0 <= i < self.entries@.len() && #[trigger] self.entries@[i].0@ == kk by {
                        if kk != k {
                            let i = choose|i: int|
                                0 <= i < before.entries@.len() && before.entries@[i].0@ == kk;
                            assert(self.entries@[i].0@ == kk);
                        }
                    }
                }
                Ok(&self.entries[n].1)
            },
            Err(e) => {
                proof {
                    self.failures@ = self.failures@.insert(k, count_of(self.failures@, k) + 1);
                }
                Err(e)
            },
        }
    }
}

} // verus!
