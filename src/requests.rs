use vstd::prelude::*;
use crate::cache::{lemma_load_balance, ResourceCache, ResourceKey};

verus! {

/// Resource requests recorded during a frame's callbacks, fulfilled at the
/// start of the next frame. Recording never loads anything.
pub struct RequestQueue<R> {
    pending: Vec<R>,
}

impl<R> View for RequestQueue<R> {
    type V = Seq<R>;

    closed spec fn view(&self) -> Seq<R> {
        self.pending@
    }
}

impl<R> RequestQueue<R> {
    pub fn new() -> (r: Self)
        ensures
            r@ == Seq::<R>::empty(),
    {
        RequestQueue { pending: Vec::new() }
    }

    /// Records a request behind those already pending.
    pub fn enqueue(&mut self, request: R)
        ensures
            final(self)@ == old(self)@.push(request),
    {
        self.pending.push(request);
    }

    pub fn len(&self) -> (r: usize)
        ensures
            r == self@.len(),
    {
        self.pending.len()
    }

    pub fn is_empty(&self) -> (r: bool)
        ensures
            r == (self@.len() == 0),
    {
        self.pending.len() == 0
    }

    /// Hands out the pending requests in the order they were made and leaves
    /// the queue empty.
    pub fn take_all(&mut self) -> (r: Vec<R>)
        ensures
            r@ == old(self)@,
            final(self)@ == Seq::<R>::empty(),
    {
        let mut taken: Vec<R> = Vec::new();
        std::mem::swap(&mut taken, &mut self.pending);
        taken
    }
}

impl<K: ResourceKey> RequestQueue<K> {
    /// Fulfils the pending requests in the order they were made (see
    /// [`fulfil_requests`]) and leaves the queue empty.
    pub fn drain_into<V, E, F: Fn(&K) -> Result<V, E>>(
        &mut self,
        cache: &mut ResourceCache<K, V>,
        loader: &F,
    ) -> (failed: Vec<(K, E)>)
        requires
            old(cache).wf(),
            forall|k: &K| loader.requires((k,)),
        ensures
            final(self)@ == Seq::<K>::empty(),
            fulfilled(old(self)@, old(cache)@, final(cache)@, *loader, failed@),
            loads_after_drain(old(self)@, *old(cache), *final(cache)),
            final(cache).wf(),
    {
        let pending = self.take_all();
        fulfil_requests(&pending, cache, loader)
    }
}

/// Whether some key viewed as `k` was requested in `q`.
pub open spec fn requested<K: View>(q: Seq<K>, k: K::V) -> bool {
    exists|i: int| 0 <= i < q.len() && #[trigger] q[i]@ == k
}

/// Whether `loader` may produce `outcome` for a key viewed as `k`.
pub open spec fn may_load<K: View, V, E, F: Fn(&K) -> Result<V, E>>(
    loader: F,
    k: K::V,
    outcome: Result<V, E>,
) -> bool {
    exists|key: K| key@ == k && #[trigger] loader.ensures((&key,), outcome)
}

/// What fulfilling `requests` in order did to a cache that held `before` and
/// now holds `after`, with the failures `failed` handed back: nothing held
/// was dropped or replaced, only requested keys were added, each with a value
/// the loader may produce, and each request is held or reported failed.
pub open spec fn fulfilled<K: View, V, E, F: Fn(&K) -> Result<V, E>>(
    requests: Seq<K>,
    before: Map<K::V, V>,
    after: Map<K::V, V>,
    loader: F,
    failed: Seq<(K, E)>,
) -> bool {
    &&& forall|k: K::V|
        #[trigger] before.contains_key(k) ==> after.contains_key(k)
            && after[k] == before[k]
    &&& forall|k: K::V|
        #[trigger] after.contains_key(k) && !before.contains_key(k) ==> requested(
            requests,
            k,
        ) && may_load(loader, k, Ok::<V, E>(after[k]))
    &&& forall|i: int|
        0 <= i < requests.len() ==> after.contains_key(#[trigger] requests[i]@)
            || exists|j: int| 0 <= j < failed.len() && #[trigger] failed[j].0@ == requests[i]@
    &&& forall|j: int|
        0 <= j < failed.len() ==> requested(requests, (#[trigger] failed[j]).0@) && may_load(
            loader,
            failed[j].0@,
            Err::<V, E>(failed[j].1),
        )
}

/// How the loader runs of a drain of `requests` show in the counters of a
/// cache that was `before` and is now `after`: no key held before, nor any
/// key not requested, was loaded; and a key whose loads did not fail in the
/// drain was loaded at most once, however often it was requested.
pub open spec fn loads_after_drain<K: ResourceKey, V>(
    requests: Seq<K>,
    before: ResourceCache<K, V>,
    after: ResourceCache<K, V>,
) -> bool {
    &&& forall|k: K::V|
        before@.contains_key(k) || !requested(requests, k) ==> #[trigger] after.load_count(k)
            == before.load_count(k) && after.failure_count(k) == before.failure_count(k)
    &&& forall|k: K::V|
        #[trigger] after.failure_count(k) == before.failure_count(k) ==> after.load_count(k)
            <= before.load_count(k) + 1
}

/// Fulfils every request, in order, by loading its key into `cache` unless the
/// cache holds it already. A failed load is handed back with its key and does
/// not stop the others.
pub fn fulfil_requests<K: ResourceKey, V, E, F: Fn(&K) -> Result<V, E>>(
    requests: &Vec<K>,
    cache: &mut ResourceCache<K, V>,
    loader: &F,
) -> (failed: Vec<(K, E)>)
    requires
        old(cache).wf(),
        forall|k: &K| loader.requires((k,)),
    ensures
        final(cache).wf(),
        fulfilled(requests@, old(cache)@, final(cache)@, *loader, failed@),
        loads_after_drain(requests@, *old(cache), *final(cache)),
{
    let pending = requests;
    let ghost start = *cache;
    let mut failed: Vec<(K, E)> = Vec::new();
    let mut i: usize = 0;
    while i < pending.len()
        invariant
            cache.wf(),
            i <= pending@.len(),
            forall|k: &K| loader.requires((k,)),
            forall|k: K::V|
                #[trigger] start@.contains_key(k) ==> cache@.contains_key(k) && cache@[k]
                    == start@[k],
            forall|k: K::V|
                #[trigger] cache@.contains_key(k) && !start@.contains_key(k) ==> requested(pending@, k)
                    && may_load(*loader, k, Ok::<V, E>(cache@[k])),
            forall|ii: int|
                0 <= ii < i ==> cache@.contains_key(#[trigger] pending@[ii]@) || exists|j: int|
                    0 <= j < failed@.len() && #[trigger] failed@[j].0@ == pending@[ii]@,
            forall|j: int|
                0 <= j < failed@.len() ==> requested(pending@, (#[trigger] failed@[j]).0@) && may_load(
                    *loader,
                    failed@[j].0@,
                    Err::<V, E>(failed@[j].1),
                ),
            forall|k: K::V|
                start@.contains_key(k) || !requested(pending@, k) ==> #[trigger] cache.load_count(k)
                    == start.load_count(k) && cache.failure_count(k) == start.failure_count(k),
        decreases pending@.len() - i,
    {
        let key = pending[i].duplicate();
        let ghost before = *cache;
        let ghost before_failed = failed@;
        let ghost kv = key@;
        let ghost called = key;
        let kept = key.duplicate();
        let ghost mut got: Option<V> = None;
        let loaded = match cache.get_or_create(key, loader) {
            Ok(v) => {
                proof {
                    got = Some(*v);
                }
                None
            },
            Err(e) => Some(e),
        };
        proof {
            if !before@.contains_key(kv) {
                match got {
                    Some(v) => {
                        assert(loader.ensures((&called,), Ok::<V, E>(v)));
                        assert(cache@[kv] == v);
                    },
                    None => {
                        assert(loader.ensures((&called,), Err::<V, E>(loaded->Some_0)));
                    },
                }
            }
        }
        match loaded {
            None => {},
            Some(e) => {
                failed.push((kept, e));
                assert(failed@[failed@.len() - 1].1 == e);
                assert(failed@[failed@.len() - 1].0@ == called@);
                assert(requested(pending@, kv));
                assert(may_load(*loader, kv, Err::<V, E>(e)));
            },
        }
        proof {
            assert(pending@[i as int]@ == kv);
            assert forall|k: K::V| #[trigger] cache@.contains_key(k) && !start@.contains_key(k) implies requested(pending@, k)
                && may_load(*loader, k, Ok::<V, E>(cache@[k])) by {
                if before@.contains_key(k) {
                    assert(cache@[k] == before@[k]);
                } else {
                    assert(k == kv);
                    assert(pending@[i as int]@ == k);
                    assert(loader.ensures((&called,), Ok::<V, E>(cache@[k])));
                }
            }
            assert forall|ii: int| 0 <= ii < i + 1 implies cache@.contains_key(#[trigger] pending@[ii]@) || exists|j: int|
                0 <= j < failed@.len() && #[trigger] failed@[j].0@ == pending@[ii]@ by {
                if ii < i {
                    if !cache@.contains_key(pending@[ii]@) {
                        let j = choose|j: int| 0 <= j < before_failed.len() && before_failed[j].0@ == pending@[ii]@;
                        assert(failed@[j] == before_failed[j]);
                    }
                } else if !cache@.contains_key(kv) {
                    assert(failed@[failed@.len() - 1].0@ == kv);
                }
            }
        }
        proof {
            assert forall|k: K::V|
                start@.contains_key(k) || !requested(pending@, k) implies #[trigger] cache.load_count(k)
                    == start.load_count(k) && cache.failure_count(k) == start.failure_count(k) by {
                if k == kv {
                    assert(requested(pending@, kv));
                    assert(before@.contains_key(kv));
                }
            }
        }
        i = i + 1;
    }
    proof {
        assert forall|k: K::V| #[trigger] cache.failure_count(k) == start.failure_count(k) implies cache.load_count(k)
            <= start.load_count(k) + 1 by {
            lemma_load_balance(&start, k);
            lemma_load_balance(cache, k);
        }
    }
    failed
}

} // verus!
