//! A capacity-limited object pool, and the byte-buffer pool built on it.
//!
//! The pool holds at most a fixed number of objects, sharded into buckets.
//! Taking probes a bounded number of buckets and otherwise creates a fresh
//! object; returning probes for a bucket with room and otherwise drops the
//! value. The byte-buffer pool adds the sandbox's size policy: an oversized
//! buffer is dropped rather than re-pooled, and the recorded sizes of all
//! pooled buffers stay under a fixed aggregate cap.

use vstd::prelude::*;

use vstd::multiset::Multiset;

verus! {

broadcast use vstd::seq_lib::group_to_multiset_ensures, vstd::multiset::group_multiset_axioms;

/// The sum of a sequence of sizes.
pub open spec fn sum_usize(s: Seq<usize>) -> int
    decreases s.len(),
{
    if s.len() == 0 {
        0
    } else {
        sum_usize(s.drop_last()) + s.last()
    }
}

/// Everything the pool's buckets hold, as one multiset.
pub open spec fn buckets_multiset<T>(s: Seq<Vec<T>>) -> Multiset<T>
    decreases s.len(),
{
    if s.len() == 0 {
        Multiset::empty()
    } else {
        buckets_multiset(s.drop_last()).add(s.last()@.to_multiset())
    }
}

/// Replacing bucket `i` by one with exactly one more `x` inserts `x` into the
/// whole pool's contents.
proof fn lemma_buckets_update_insert<T>(s: Seq<Vec<T>>, i: int, nv: Vec<T>, x: T)
    requires
        0 <= i < s.len(),
        nv@.to_multiset() == s[i]@.to_multiset().insert(x),
    ensures
        buckets_multiset(s.update(i, nv)) == buckets_multiset(s).insert(x),
    decreases s.len(),
{
    let t = s.update(i, nv);
    if i == s.len() - 1 {
        assert(t.drop_last() =~= s.drop_last());
        assert(t.last() == nv);
        assert(buckets_multiset(s.drop_last()).add(s.last()@.to_multiset().insert(x))
            =~= buckets_multiset(s.drop_last()).add(s.last()@.to_multiset()).insert(x));
    } else {
        assert(t.drop_last() =~= s.drop_last().update(i, nv));
        assert(t.last() == s.last());
        lemma_buckets_update_insert(s.drop_last(), i, nv, x);
        assert(buckets_multiset(s.drop_last()).insert(x).add(s.last()@.to_multiset())
            =~= buckets_multiset(s.drop_last()).add(s.last()@.to_multiset()).insert(x));
    }
}

/// The pool's contents hold no more elements than the bucket capacities sum
/// to.
proof fn lemma_buckets_len_bound<T>(entries: Seq<Vec<T>>, caps: Seq<usize>)
    requires
        entries.len() == caps.len(),
        forall|i: int| 0 <= i < entries.len() ==> #[trigger] entries[i]@.len() <= caps[i],
    ensures
        buckets_multiset(entries).len() <= sum_usize(caps),
    decreases entries.len(),
{
    if entries.len() > 0 {
        assert forall|i: int|
            0 <= i < entries.drop_last().len() implies #[trigger] entries.drop_last()[i]@.len()
            <= caps.drop_last()[i] by {
            assert(entries.drop_last()[i] == entries[i]);
        }
        lemma_buckets_len_bound(entries.drop_last(), caps.drop_last());
        assert(entries[entries.len() - 1]@.len() <= caps[caps.len() - 1]);
        assert(entries.last()@.to_multiset().len() == entries.last()@.len());
    }
}

/// The number of objects the buckets hold, bucket by bucket.
pub open spec fn sum_bucket_lens<T>(s: Seq<Vec<T>>) -> int
    decreases s.len(),
{
    if s.len() == 0 {
        0
    } else {
        sum_bucket_lens(s.drop_last()) + s.last()@.len()
    }
}

/// The pool's contents hold exactly as many elements as its buckets do.
proof fn lemma_buckets_len_exact<T>(s: Seq<Vec<T>>)
    ensures
        buckets_multiset(s).len() == sum_bucket_lens(s),
    decreases s.len(),
{
    if s.len() > 0 {
        lemma_buckets_len_exact(s.drop_last());
        assert(s.last()@.to_multiset().len() == s.last()@.len());
    }
}

/// Buckets filled to their capacities hold exactly the capacity sum.
proof fn lemma_sum_lens_full<T>(entries: Seq<Vec<T>>, caps: Seq<usize>)
    requires
        entries.len() == caps.len(),
        forall|i: int| 0 <= i < entries.len() ==> #[trigger] entries[i]@.len() == caps[i],
    ensures
        sum_bucket_lens(entries) == sum_usize(caps),
    decreases entries.len(),
{
    if entries.len() > 0 {
        assert forall|i: int|
            0 <= i < entries.drop_last().len() implies #[trigger] entries.drop_last()[i]@.len()
            == caps.drop_last()[i] by {
            assert(entries.drop_last()[i] == entries[i]);
        }
        lemma_sum_lens_full(entries.drop_last(), caps.drop_last());
        assert(entries[entries.len() - 1]@.len() == caps[caps.len() - 1]);
    }
}

/// Buckets that are all empty hold nothing.
proof fn lemma_sum_lens_zero<T>(entries: Seq<Vec<T>>)
    requires
        forall|i: int| 0 <= i < entries.len() ==> #[trigger] entries[i]@.len() == 0,
    ensures
        sum_bucket_lens(entries) == 0,
    decreases entries.len(),
{
    if entries.len() > 0 {
        assert forall|i: int|
            0 <= i < entries.drop_last().len() implies #[trigger] entries.drop_last()[i]@.len()
            == 0 by {
            assert(entries.drop_last()[i] == entries[i]);
        }
        lemma_sum_lens_zero(entries.drop_last());
        assert(entries[entries.len() - 1]@.len() == 0);
    }
}

/// Configuration of a [`Pool`]: how many objects it holds at most, how many
/// buckets shard them, and how many buckets one operation probes.
#[derive(Debug, Clone, Copy, PartialEq, Eq, Structural)]
pub struct PoolBuilder {
    /// The number of objects the pool can hold.
    pub capacity: usize,
    /// The requested bucket count; zero asks for the default.
    pub buckets: usize,
    /// How many buckets one take or return probes, at most.
    pub max_loop: usize,
}

impl PoolBuilder {
    /// A pool of `capacity` objects; every operation may probe every bucket.
    pub fn new(capacity: usize) -> (r: Self)
        requires
            capacity > 0,
        ensures
            r.capacity == capacity,
            r.buckets == 0,
            r.max_loop == capacity,
    {
        PoolBuilder { capacity, buckets: 0, max_loop: capacity }
    }

    /// Sets the number of buckets that reduce contention.
    pub fn with_buckets(self, buckets: usize) -> (r: Self)
        ensures
            r == (PoolBuilder { buckets, ..self }),
    {
        PoolBuilder { buckets, ..self }
    }

    /// Sets how many buckets one operation searches, at most.
    pub fn with_max_search(self, max_loop: usize) -> (r: Self)
        ensures
            r == (PoolBuilder { max_loop, ..self }),
    {
        PoolBuilder { max_loop, ..self }
    }

    /// Carries a hook that filters and rewrites objects as they return.
    pub fn with_return_hook<R>(self, hook: R) -> (r: ReturnHookedBuilder<R>)
        ensures
            r.config == self,
            r.hook == hook,
    {
        ReturnHookedBuilder { config: self, hook }
    }

    /// Carries a hook that rewrites pooled objects as they are taken.
    pub fn with_take_hook<K>(self, hook: K) -> (r: TakeHookedBuilder<K>)
        ensures
            r.config == self,
            r.hook == hook,
    {
        TakeHookedBuilder { config: self, hook }
    }

    /// Builds an empty pool that uses `create` for fresh objects.
    ///
    /// The bucket count is the requested one — or, when zero was left in
    /// place, the capacity — and never below the capacity, so that every
    /// object can find a slot; the capacity is spread over the buckets.
    pub fn build<T, F: Fn() -> T>(self, create: F) -> (r: Pool<T, F>)
        requires
            self.capacity > 0,
        ensures
            r.wf(),
            r.capacity() == self.capacity,
            r.contents() == Multiset::<T>::empty(),
            r.creator() == create,
    {
        let want = if self.buckets == 0 {
            self.capacity
        } else {
            self.buckets
        };
        let buckets = if want < self.capacity {
            self.capacity
        } else {
            want
        };
        let per: usize = self.capacity / buckets;
        proof {
            assert(per * buckets <= self.capacity) by (nonlinear_arith)
                requires
                    per == self.capacity as int / buckets as int,
                    buckets >= 1,
            ;
        }

        let mut entries: Vec<Vec<T>> = Vec::new();
        let mut caps: Vec<usize> = Vec::new();
        let mut used: usize = 0;
        let mut i: usize = 0;
        while i < buckets - 1
            invariant
                i <= buckets - 1,
                buckets >= 1,
                per * buckets <= self.capacity,
                entries@.len() == i,
                caps@.len() == i,
                used == per * i,
                used <= self.capacity,
                sum_usize(caps@) == used,
                forall|j: int| 0 <= j < i ==> #[trigger] entries@[j]@.len() <= caps@[j],
                buckets_multiset(entries@) == Multiset::<T>::empty(),
            decreases buckets - 1 - i,
        {
            let ghost caps0 = caps@;
            let ghost entries0 = entries@;
            entries.push(Vec::new());
            caps.push(per);
            proof {
                assert(per * (i + 1) == per * i + per && per * (i + 1) <= per * buckets)
                    by (nonlinear_arith)
                    requires
                        0 <= i < buckets,
                        per >= 0,
                ;
                assert(caps@.drop_last() =~= caps0);
                assert(entries@.drop_last() =~= entries0);
                assert(entries@.last()@.to_multiset() =~= Multiset::<T>::empty());
                assert(buckets_multiset(entries@) =~= Multiset::<T>::empty());
            }
            used = used + per;
            i += 1;
        }
        let ghost caps0 = caps@;
        let ghost entries0 = entries@;
        let last_cap: usize = self.capacity - used;
        entries.push(Vec::new());
        caps.push(last_cap);
        proof {
            assert(caps@.drop_last() =~= caps0);
            assert(entries@.drop_last() =~= entries0);
            assert(entries@.last()@.to_multiset() =~= Multiset::<T>::empty());
            assert(buckets_multiset(entries@) =~= Multiset::<T>::empty());
        }
        Pool { entries, caps, skip: 0, max_loop: self.max_loop, capacity: self.capacity, create }
    }
}

/// A pool configuration together with a return hook.
pub struct ReturnHookedBuilder<R> {
    /// The pool's shape.
    pub config: PoolBuilder,
    /// The hook run on every returned object.
    pub hook: R,
}

impl<R> ReturnHookedBuilder<R> {
    /// Builds an empty pool whose returns run through the hook.
    pub fn build<T, F: Fn() -> T>(self, create: F) -> (r: ReturnHookedPool<T, F, R>) where
        R: Fn(T) -> Option<T>,

        requires
            self.config.capacity > 0,
        ensures
            r.wf(),
            r.capacity() == self.config.capacity,
            r.contents() == Multiset::<T>::empty(),
            r.creator() == create,
            r.hook() == self.hook,
    {
        ReturnHookedPool { pool: self.config.build(create), hook: self.hook }
    }
}

/// A pool configuration together with a take hook.
pub struct TakeHookedBuilder<K> {
    /// The pool's shape.
    pub config: PoolBuilder,
    /// The hook run on every pooled object handed out.
    pub hook: K,
}

impl<K> TakeHookedBuilder<K> {
    /// Builds an empty pool whose pooled objects run through the hook as they
    /// are taken.
    pub fn build<T, F: Fn() -> T>(self, create: F) -> (r: TakeHookedPool<T, F, K>) where
        K: Fn(T) -> T,

        requires
            self.config.capacity > 0,
        ensures
            r.wf(),
            r.capacity() == self.config.capacity,
            r.contents() == Multiset::<T>::empty(),
            r.creator() == create,
            r.hook() == self.hook,
    {
        TakeHookedPool { pool: self.config.build(create), hook: self.hook }
    }
}

/// A capacity-limited pool of objects.
///
/// Taking hands out a pooled object when a probed bucket holds one, and a
/// freshly created one otherwise; returning re-pools the object when a probed
/// bucket has room and drops it otherwise. The pool never holds more objects
/// than its capacity.
#[verifier::reject_recursive_types(T)]
pub struct Pool<T, F: Fn() -> T> {
    entries: Vec<Vec<T>>,
    caps: Vec<usize>,
    skip: usize,
    max_loop: usize,
    capacity: usize,
    create: F,
}

impl<T, F: Fn() -> T> Pool<T, F> {
    /// The pool's buckets are consistent: as many capacities as buckets, no
    /// bucket over its capacity, and the capacities spreading the pool's own.
    pub closed spec fn wf(&self) -> bool {
        &&& self.entries@.len() == self.caps@.len()
        &&& self.entries@.len() >= 1
        &&& self.capacity >= 1
        &&& forall|i: int|
            0 <= i < self.entries@.len() ==> #[trigger] self.entries@[i]@.len() <= self.caps@[i]
        &&& sum_usize(self.caps@) == self.capacity
    }

    /// Everything the pool currently holds.
    pub closed spec fn contents(&self) -> Multiset<T> {
        buckets_multiset(self.entries@)
    }

    /// The number of objects the pool can hold.
    pub closed spec fn capacity(&self) -> usize {
        self.capacity
    }

    /// The object factory.
    pub closed spec fn creator(&self) -> F {
        self.create
    }

    /// Whether one operation probes every bucket, so that nothing pooled can
    /// hide from it: the probe bound covers the whole ring.
    pub closed spec fn probes_all(&self) -> bool {
        self.max_loop + 1 >= self.entries@.len()
    }

    /// The pool never holds more than its capacity.
    pub proof fn lemma_contents_bound(&self)
        requires
            self.wf(),
        ensures
            self.contents().len() <= self.capacity(),
    {
        lemma_buckets_len_bound(self.entries@, self.caps@);
    }

    /// The capacity, as configured.
    pub fn get_capacity(&self) -> (r: usize)
        ensures
            r == self.capacity(),
    {
        self.capacity
    }

    /// The first probed bucket with room for one more object, scanning
    /// `limit` buckets from `start` around the ring.
    fn find_slot(&self, start: usize, limit: usize) -> (r: Option<usize>)
        requires
            self.wf(),
            start < self.entries@.len(),
            limit <= self.entries@.len(),
        ensures
            r matches Some(f) ==> f < self.entries@.len() && self.entries@[f as int]@.len()
                < self.caps@[f as int],
            r is None && limit == self.entries@.len() ==> forall|k: int|
                0 <= k < self.entries@.len() ==> #[trigger] self.entries@[k]@.len()
                    == self.caps@[k],
    {
        let n = self.entries.len();
        let mut idx = start;
        let mut i: usize = 0;
        while i < limit
            invariant
                self.wf(),
                n == self.entries@.len(),
                start < n,
                idx == (if start + i < n {
                    start + i
                } else {
                    start + i - n
                }),
                i <= limit <= n,
                forall|t: int|
                    0 <= t < i && start + t < n ==> #[trigger] self.entries@[start + t]@.len()
                        >= self.caps@[start + t],
                forall|t: int|
                    0 <= t < i && start + t >= n ==> #[trigger] self.entries@[start + t
                        - n]@.len() >= self.caps@[start + t - n],
            decreases limit - i,
        {
            if self.entries[idx].len() < self.caps[idx] {
                return Some(idx);
            }
            i += 1;
            idx += 1;
            if idx == n {
                idx = 0;
            }
        }
        proof {
            if limit == n {
                assert forall|k: int| 0 <= k < n implies #[trigger] self.entries@[k]@.len()
                    == self.caps@[k] by {
                    if k >= start {
                        assert(self.entries@[start + (k - start)]@.len() >= self.caps@[start + (
                        k - start)]);
                    } else {
                        assert(self.entries@[start + (k + n - start) - n]@.len()
                            >= self.caps@[start + (k + n - start) - n]);
                    }
                }
            }
        }
        None
    }

    /// Takes one object: a pooled one from the first probed bucket that holds
    /// one — removed from the pool — or a freshly created one, with the pool
    /// unchanged.
    pub fn take(&mut self) -> (r: T)
        requires
            old(self).wf(),
            call_requires(old(self).creator(), ()),
        ensures
            final(self).wf(),
            final(self).capacity() == old(self).capacity(),
            final(self).creator() == old(self).creator(),
            (old(self).contents().contains(r) && final(self).contents() == old(
                self,
            ).contents().remove(r)) || (final(self).contents() == old(self).contents()
                && call_ensures(old(self).creator(), (), r)),
            old(self).probes_all() && old(self).contents().len() > 0
                ==> old(self).contents().contains(r) && final(self).contents()
                == old(self).contents().remove(r),
    {
        match self.try_take() {
            Some(v) => v,
            None => (self.create)(),
        }
    }

    /// Takes a pooled object if a probed bucket holds one; never creates.
    /// When the probe bound covers every bucket, a non-empty pool always
    /// yields.
    pub fn try_take(&mut self) -> (r: Option<T>)
        requires
            old(self).wf(),
        ensures
            final(self).wf(),
            final(self).capacity() == old(self).capacity(),
            final(self).creator() == old(self).creator(),
            match r {
                Some(v) => old(self).contents().contains(v) && final(self).contents() == old(
                    self,
                ).contents().remove(v),
                None => final(self).contents() == old(self).contents(),
            },
            old(self).probes_all() && old(self).contents().len() > 0 ==> r is Some,
    {
        let ghost snap = self.entries@;
        let n = self.entries.len();
        let start = self.skip % n;
        self.skip = if self.skip == usize::MAX {
            0
        } else {
            self.skip + 1
        };
        let limit = if self.max_loop < n {
            self.max_loop + 1
        } else {
            n
        };
        let mut idx = start;
        let mut i: usize = 0;
        while i < limit
            invariant
                self.wf(),
                self.entries@ == snap,
                self.caps@ == old(self).caps@,
                self.capacity == old(self).capacity,
                self.create == old(self).create,
                snap == old(self).entries@,
                n == self.entries@.len(),
                start < n,
                idx == (if start + i < n {
                    start + i
                } else {
                    start + i - n
                }),
                i <= limit <= n,
                forall|t: int|
                    0 <= t < i && start + t < n ==> #[trigger] self.entries@[start + t]@.len()
                        == 0,
                forall|t: int|
                    0 <= t < i && start + t >= n ==> #[trigger] self.entries@[start + t
                        - n]@.len() == 0,
            decreases limit - i,
        {
            let ghost bucket = snap[idx as int]@;
            if self.entries[idx].len() > 0 {
                let popped = self.entries[idx].pop();
                match popped {
                    Some(v) => {
                        proof {
                            let nb = self.entries@[idx as int];
                            assert(bucket =~= nb@.push(v));
                            assert(bucket.to_multiset() == nb@.to_multiset().insert(v));
                            lemma_buckets_update_insert(
                                self.entries@,
                                idx as int,
                                snap[idx as int],
                                v,
                            );
                            assert(self.entries@.update(idx as int, snap[idx as int]) =~= snap);
                            assert(buckets_multiset(snap) == buckets_multiset(
                                self.entries@,
                            ).insert(v));
                            assert(buckets_multiset(snap).remove(v) =~= buckets_multiset(
                                self.entries@,
                            ));
                            assert(buckets_multiset(snap).count(v) > 0);
                        }
                        return Some(v);
                    },
                    None => {
                        proof {
                            assert(false);
                        }
                    },
                }
            }
            i += 1;
            idx += 1;
            if idx == n {
                idx = 0;
            }
        }
        proof {
            if limit == n {
                assert forall|k: int| 0 <= k < n implies #[trigger] self.entries@[k]@.len()
                    == 0 by {
                    if k >= start {
                        assert(self.entries@[start + (k - start)]@.len() == 0);
                    } else {
                        assert(self.entries@[start + (k + n - start) - n]@.len() == 0);
                    }
                }
                lemma_buckets_len_exact(self.entries@);
                lemma_sum_lens_zero(self.entries@);
            }
        }
        None
    }

    /// Returns one object to the pool: into the first probed bucket with
    /// room, or dropped when every probed bucket is full. When the probe
    /// bound covers every bucket, a pool with room always takes the value.
    pub fn return_value(&mut self, value: T)
        requires
            old(self).wf(),
        ensures
            final(self).wf(),
            final(self).capacity() == old(self).capacity(),
            final(self).creator() == old(self).creator(),
            final(self).contents() == old(self).contents().insert(value) || final(self).contents()
                == old(self).contents(),
            old(self).probes_all() && old(self).contents().len() < old(self).capacity()
                ==> final(self).contents() == old(self).contents().insert(value),
    {
        let ghost snap = self.entries@;
        let n = self.entries.len();
        let start = self.skip % n;
        self.skip = if self.skip == usize::MAX {
            0
        } else {
            self.skip + 1
        };
        let limit = if self.max_loop < n {
            self.max_loop + 1
        } else {
            n
        };
        let found = self.find_slot(start, limit);
        match found {
            Some(f) => {
                let ghost bucket = self.entries@[f as int]@;
                self.entries[f].push(value);
                proof {
                    let nb = self.entries@[f as int];
                    assert(nb@ =~= bucket.push(value));
                    assert(nb@.to_multiset() == bucket.to_multiset().insert(value));
                    lemma_buckets_update_insert(snap, f as int, nb, value);
                    assert(snap.update(f as int, nb) =~= self.entries@);
                }
            },
            None => {
                proof {
                    if limit == n {
                        lemma_buckets_len_exact(self.entries@);
                        lemma_sum_lens_full(self.entries@, self.caps@);
                    }
                }
            },
        }
    }
}

/// A pool whose returns pass through a filter hook first.
#[verifier::reject_recursive_types(T)]
pub struct ReturnHookedPool<T, F: Fn() -> T, R: Fn(T) -> Option<T>> {
    pool: Pool<T, F>,
    hook: R,
}

impl<T, F: Fn() -> T, R: Fn(T) -> Option<T>> ReturnHookedPool<T, F, R> {
    /// The underlying pool's buckets are consistent.
    pub closed spec fn wf(&self) -> bool {
        self.pool.wf()
    }

    /// Everything the pool currently holds.
    pub closed spec fn contents(&self) -> Multiset<T> {
        self.pool.contents()
    }

    /// The number of objects the pool can hold.
    pub closed spec fn capacity(&self) -> usize {
        self.pool.capacity()
    }

    /// The object factory.
    pub closed spec fn creator(&self) -> F {
        self.pool.creator()
    }

    /// The return hook.
    pub closed spec fn hook(&self) -> R {
        self.hook
    }

    /// Whether one operation probes every bucket of the underlying pool.
    pub closed spec fn probes_all(&self) -> bool {
        self.pool.probes_all()
    }

    /// Takes one object, as the plain pool does; the hook plays no part.
    pub fn take(&mut self) -> (r: T)
        requires
            old(self).wf(),
            call_requires(old(self).creator(), ()),
        ensures
            final(self).wf(),
            final(self).capacity() == old(self).capacity(),
            final(self).creator() == old(self).creator(),
            final(self).hook() == old(self).hook(),
            (old(self).contents().contains(r) && final(self).contents() == old(
                self,
            ).contents().remove(r)) || (final(self).contents() == old(self).contents()
                && call_ensures(old(self).creator(), (), r)),
            old(self).probes_all() && old(self).contents().len() > 0
                ==> old(self).contents().contains(r) && final(self).contents()
                == old(self).contents().remove(r),
    {
        self.pool.take()
    }

    /// What returning through the hook may leave behind: either the hook kept
    /// a value, which is pooled or dropped for want of room, or the hook
    /// discarded the value and the contents stand.
    pub open spec fn return_outcome(pre: Multiset<T>, post: Multiset<T>, hook: R, value: T) -> bool {
        (exists|kept: T|
            call_ensures(hook, (value,), Some(kept)) && (post == pre.insert(kept) || post == pre))
            || (call_ensures(hook, (value,), None::<T>) && post == pre)
    }

    /// Returns one object: the hook may rewrite it or drop it (`None`); what
    /// the hook keeps is pooled as usual, space permitting.
    pub fn return_value(&mut self, value: T)
        requires
            old(self).wf(),
            call_requires(old(self).hook(), (value,)),
        ensures
            final(self).wf(),
            final(self).capacity() == old(self).capacity(),
            final(self).creator() == old(self).creator(),
            final(self).hook() == old(self).hook(),
            Self::return_outcome(old(self).contents(), final(self).contents(), old(self).hook(), value),
            old(self).probes_all() && old(self).contents().len() < old(self).capacity()
                ==> ((exists|kept: T|
                call_ensures(old(self).hook(), (value,), Some(kept)) && final(self).contents()
                    == old(self).contents().insert(kept)) || (call_ensures(
                old(self).hook(),
                (value,),
                None::<T>,
            ) && final(self).contents() == old(self).contents())),
    {
        match (self.hook)(value) {
            Some(kept) => {
                let ghost witness = kept;
                self.pool.return_value(kept);
                proof {
                    assert(call_ensures(old(self).hook(), (value,), Some(witness)));
                }
            },
            None => {},
        }
    }

    /// The capacity, as configured.
    pub fn get_capacity(&self) -> (r: usize)
        ensures
            r == self.capacity(),
    {
        self.pool.get_capacity()
    }
}

/// A pool whose pooled objects pass through a hook as they are taken; freshly
/// created objects bypass the hook.
#[verifier::reject_recursive_types(T)]
pub struct TakeHookedPool<T, F: Fn() -> T, K: Fn(T) -> T> {
    pool: Pool<T, F>,
    hook: K,
}

impl<T, F: Fn() -> T, K: Fn(T) -> T> TakeHookedPool<T, F, K> {
    /// The underlying pool's buckets are consistent.
    pub closed spec fn wf(&self) -> bool {
        self.pool.wf()
    }

    /// Everything the pool currently holds.
    pub closed spec fn contents(&self) -> Multiset<T> {
        self.pool.contents()
    }

    /// The number of objects the pool can hold.
    pub closed spec fn capacity(&self) -> usize {
        self.pool.capacity()
    }

    /// The object factory.
    pub closed spec fn creator(&self) -> F {
        self.pool.creator()
    }

    /// The take hook.
    pub closed spec fn hook(&self) -> K {
        self.hook
    }

    /// Whether one operation probes every bucket of the underlying pool.
    pub closed spec fn probes_all(&self) -> bool {
        self.pool.probes_all()
    }

    /// What a hooked take may hand out: a pooled value, removed and passed
    /// through the hook, or a fresh one from the factory with the contents
    /// standing.
    pub open spec fn take_outcome(pre: Multiset<T>, post: Multiset<T>, hook: K, creator: F, r: T) -> bool {
        (exists|x: T| pre.contains(x) && post == pre.remove(x) && call_ensures(hook, (x,), r)) || (
        post == pre && call_ensures(creator, (), r))
    }

    /// Takes one object: a pooled one is removed and rewritten by the hook; a
    /// freshly created one comes straight from the factory.
    pub fn take(&mut self) -> (r: T)
        requires
            old(self).wf(),
            call_requires(old(self).creator(), ()),
            forall|x: T| old(self).contents().contains(x) ==> call_requires(old(self).hook(), (x,)),
        ensures
            final(self).wf(),
            final(self).capacity() == old(self).capacity(),
            final(self).creator() == old(self).creator(),
            final(self).hook() == old(self).hook(),
            Self::take_outcome(old(self).contents(), final(self).contents(), old(self).hook(), old(self).creator(), r),
            old(self).probes_all() && old(self).contents().len() > 0 ==> (exists|x: T|
                old(self).contents().contains(x) && final(self).contents() == old(
                    self,
                ).contents().remove(x) && call_ensures(old(self).hook(), (x,), r)),
    {
        match self.pool.try_take() {
            Some(x) => {
                let ghost witness = x;
                proof {
                    assert(old(self).contents().contains(witness));
                    assert(call_requires(old(self).hook(), (witness,)));
                }
                let r = (self.hook)(x);
                proof {
                    assert(self.contents() == old(self).contents().remove(witness));
                    assert(call_ensures(old(self).hook(), (witness,), r));
                }
                r
            },
            None => (self.pool.create)(),
        }
    }

    /// Returns one object to the pool, as the plain pool does.
    pub fn return_value(&mut self, value: T)
        requires
            old(self).wf(),
        ensures
            final(self).wf(),
            final(self).capacity() == old(self).capacity(),
            final(self).creator() == old(self).creator(),
            final(self).hook() == old(self).hook(),
            final(self).contents() == old(self).contents().insert(value) || final(self).contents()
                == old(self).contents(),
            old(self).probes_all() && old(self).contents().len() < old(self).capacity()
                ==> final(self).contents() == old(self).contents().insert(value),
    {
        self.pool.return_value(value);
    }

    /// The capacity, as configured.
    pub fn get_capacity(&self) -> (r: usize)
        ensures
            r == self.capacity(),
    {
        self.pool.get_capacity()
    }
}

/// A value taken from a pool, carried to its user.
#[derive(Debug)]
pub struct Pooled<T> {
    /// The value itself.
    pub value: T,
}

impl<T> Pooled<T> {
    /// Wraps a value handed out by a pool.
    pub fn new(value: T) -> (r: Self)
        ensures
            r.value == value,
    {
        Pooled { value }
    }

    /// A reference to the value.
    pub fn get(&self) -> (r: &T)
        ensures
            *r == self.value,
    {
        &self.value
    }

    /// A mutable reference to the value.
    pub fn get_mut(&mut self) -> (r: &mut T)
        ensures
            *r == old(self).value,
            final(self).value == *final(r),
    {
        &mut self.value
    }

    /// Takes the value out, so that it never returns to a pool.
    pub fn forget(self) -> (r: T)
        ensures
            r == self.value,
    {
        let Pooled { value } = self;
        value
    }

    /// Applies `f` to the contained value: on success the result is pooled in
    /// its place, on failure the error is handed back and the value is gone.
    pub fn apply_result<E, F: FnOnce(T) -> Result<T, E>>(self, f: F) -> (r: Result<Self, E>)
        requires
            call_requires(f, (self.value,)),
        ensures
            r matches Ok(p) ==> call_ensures(f, (self.value,), Ok(p.value)),
            r matches Err(e) ==> call_ensures(f, (self.value,), Err(e)),
    {
        let Pooled { value } = self;
        match f(value) {
            Ok(value) => Ok(Pooled { value }),
            Err(e) => Err(e),
        }
    }
}

/// The return half of a pool: where a pooled value goes back to.
pub trait PoolReturn<T> {
    /// Returns a value to the pool.
    fn return_value(&mut self, value: T);
}

/// A pooled value that carries its own way back to a pool.
#[derive(Debug)]
pub struct OwnedPooled<T, P: PoolReturn<T>> {
    /// The value itself.
    pub value: T,
    /// Where the value is returned.
    pub pool: P,
}

impl<T, P: PoolReturn<T>> OwnedPooled<T, P> {
    /// Wraps a value together with its pool.
    pub fn new(value: T, pool: P) -> (r: Self)
        ensures
            r.value == value,
            r.pool == pool,
    {
        OwnedPooled { value, pool }
    }

    /// A reference to the value.
    pub fn get(&self) -> (r: &T)
        ensures
            *r == self.value,
    {
        &self.value
    }

    /// A mutable reference to the value.
    pub fn get_mut(&mut self) -> (r: &mut T)
        ensures
            *r == old(self).value,
            final(self).value == *final(r),
            final(self).pool == old(self).pool,
    {
        &mut self.value
    }

    /// Takes the value out, so that it never returns to the pool.
    pub fn forget(self) -> (r: T)
        ensures
            r == self.value,
    {
        let OwnedPooled { value, pool } = self;
        let _ = pool;
        value
    }

    /// Hands the value back to the pool.
    pub fn release(self) {
        let OwnedPooled { value, pool } = self;
        let mut pool = pool;
        pool.return_value(value);
    }
}

/// The aggregate cap on the recorded sizes of all pooled buffers: 128 MiB.
pub const MAX_TOTAL_BUFFERS: usize = 0x800_0000;

/// The cap on one buffer's recorded size: 16 MiB; a larger returned buffer is
/// dropped instead of re-pooled.
pub const MAX_SINGLE_BUFFER: usize = 0x100_0000;

/// The default number of buffers the message pool holds.
pub const DEFAULT_POOL_SLOTS: usize = 16;

/// How large a fresh buffer starts out: 16 KiB.
pub const DEFAULT_BUFFER_LEN: usize = 16384;

/// The recorded sizes of a buffer pool's entries, summed.
pub open spec fn sum_entry_sizes(s: Seq<(Vec<u8>, usize)>) -> int
    decreases s.len(),
{
    if s.len() == 0 {
        0
    } else {
        sum_entry_sizes(s.drop_last()) + s.last().1
    }
}

proof fn lemma_sum_prefix(s: Seq<(Vec<u8>, usize)>, i: int)
    requires
        0 <= i <= s.len(),
    ensures
        sum_entry_sizes(s.subrange(0, i)) <= sum_entry_sizes(s),
        sum_entry_sizes(s.subrange(0, i)) >= 0,
    decreases s.len() - i,
{
    lemma_sum_nonneg(s.subrange(0, i));
    if i == s.len() {
        assert(s.subrange(0, i) =~= s);
    } else {
        lemma_sum_prefix(s, i + 1);
        assert(s.subrange(0, i + 1).drop_last() =~= s.subrange(0, i));
    }
}

proof fn lemma_sum_nonneg(s: Seq<(Vec<u8>, usize)>)
    ensures
        sum_entry_sizes(s) >= 0,
    decreases s.len(),
{
    if s.len() > 0 {
        lemma_sum_nonneg(s.drop_last());
    }
}

/// The byte-buffer pool behind message serialization.
///
/// Buffers come out empty and go back in cleared; a returned buffer's length
/// is recorded as its size. The pool refuses a buffer over
/// [`MAX_SINGLE_BUFFER`], a buffer that would push the recorded total over
/// [`MAX_TOTAL_BUFFERS`], and any buffer once all slots are taken — so the
/// recorded total never exceeds the aggregate cap.
#[derive(Debug)]
pub struct BufferPool {
    entries: Vec<(Vec<u8>, usize)>,
    slots: usize,
}

impl BufferPool {
    /// The pool's ledger is consistent: no more buffers than slots, every
    /// stored buffer cleared, every recorded size within the single-buffer
    /// cap, and the recorded total within the aggregate cap.
    #[verifier::type_invariant]
    spec fn wf(&self) -> bool {
        &&& self.entries@.len() <= self.slots
        &&& self.slots >= 1
        &&& forall|i: int| 0 <= i < self.entries@.len() ==> #[trigger] self.entries@[i].0@.len() == 0
        &&& forall|i: int|
            0 <= i < self.entries@.len() ==> #[trigger] self.entries@[i].1 <= MAX_SINGLE_BUFFER
        &&& sum_entry_sizes(self.entries@) <= MAX_TOTAL_BUFFERS
    }

    /// The recorded sizes of the pooled buffers, summed.
    pub closed spec fn pooled_bytes(&self) -> int {
        sum_entry_sizes(self.entries@)
    }

    /// The recorded sizes of the pooled buffers, oldest first.
    pub closed spec fn ledger(&self) -> Seq<usize> {
        self.entries@.map_values(|e: (Vec<u8>, usize)| e.1)
    }

    /// How many buffers the pool holds.
    pub closed spec fn pooled_count(&self) -> int {
        self.entries@.len() as int
    }

    /// How many buffers the pool can hold.
    pub closed spec fn slot_count(&self) -> int {
        self.slots as int
    }

    /// An empty pool with the given number of slots.
    pub fn new(slots: usize) -> (r: Self)
        requires
            slots >= 1,
        ensures
            r.pooled_bytes() == 0,
            r.pooled_count() == 0,
            r.slot_count() == slots,
    {
        BufferPool { entries: Vec::new(), slots }
    }

    /// Takes a buffer: a pooled one — empty, its size struck off the ledger —
    /// or a fresh one of [`DEFAULT_BUFFER_LEN`] reserved bytes.
    pub fn take(&mut self) -> (r: Vec<u8>)
        ensures
            r@.len() == 0,
            final(self).pooled_bytes() <= old(self).pooled_bytes(),
            final(self).pooled_count() <= old(self).pooled_count(),
            final(self).slot_count() == old(self).slot_count(),
            0 <= final(self).pooled_bytes() <= MAX_TOTAL_BUFFERS as int,
            old(self).pooled_count() == 0 ==> final(self).ledger() == old(self).ledger(),
            old(self).pooled_count() > 0 ==> final(self).ledger() == old(self).ledger().drop_last(),
    {
        proof {
            use_type_invariant(&*self);
            lemma_sum_nonneg(self.entries@.drop_last());
            lemma_sum_nonneg(self.entries@);
        }
        let ghost snap = self.entries@;
        let mut entries: Vec<(Vec<u8>, usize)> = Vec::new();
        core::mem::swap(&mut entries, &mut self.entries);
        let popped = entries.pop();
        proof {
            if snap.len() > 0 {
                assert(entries@ =~= snap.drop_last());
                assert forall|i: int| 0 <= i < entries@.len() implies #[trigger] entries@[i].0@.len()
                    == 0 by {
                    assert(entries@[i] == snap[i]);
                }
                assert forall|i: int| 0 <= i < entries@.len() implies #[trigger] entries@[i].1
                    <= MAX_SINGLE_BUFFER by {
                    assert(entries@[i] == snap[i]);
                }
                assert(sum_entry_sizes(entries@) == sum_entry_sizes(snap) - snap.last().1);
                assert(snap.drop_last().map_values(|e: (Vec<u8>, usize)| e.1) =~= snap.map_values(
                    |e: (Vec<u8>, usize)| e.1,
                ).drop_last());
            } else {
                assert(entries@ =~= snap);
            }
        }
        core::mem::swap(&mut entries, &mut self.entries);
        match popped {
            Some((buf, _size)) => buf,
            None => Vec::with_capacity(DEFAULT_BUFFER_LEN),
        }
    }

    /// Whether the size policy drops a returned buffer of `size` bytes: it is
    /// over the single-buffer cap, it would push the recorded total over the
    /// aggregate cap, or every slot is taken.
    pub open spec fn spec_rejects(&self, size: int) -> bool {
        size > MAX_SINGLE_BUFFER || self.pooled_bytes() + size > MAX_TOTAL_BUFFERS
            || self.pooled_count() == self.slot_count()
    }

    /// Returns a buffer; its length is its recorded size. A buffer the size
    /// policy rejects is dropped; any other is cleared and pooled.
    pub fn return_buffer(&mut self, buf: Vec<u8>)
        ensures
            old(self).spec_rejects(buf@.len() as int) ==> final(self).pooled_bytes() == old(
                self,
            ).pooled_bytes() && final(self).pooled_count() == old(self).pooled_count(),
            !old(self).spec_rejects(buf@.len() as int) ==> final(self).pooled_bytes() == old(
                self,
            ).pooled_bytes() + buf@.len() && final(self).pooled_count() == old(self).pooled_count()
                + 1,
            old(self).spec_rejects(buf@.len() as int) ==> final(self).ledger() == old(
                self,
            ).ledger(),
            !old(self).spec_rejects(buf@.len() as int) ==> final(self).ledger() == old(
                self,
            ).ledger().push(buf@.len() as usize),
            final(self).pooled_bytes() <= MAX_TOTAL_BUFFERS as int,
            final(self).slot_count() == old(self).slot_count(),
    {
        proof {
            use_type_invariant(&*self);
            lemma_sum_nonneg(self.entries@);
        }
        let size = buf.len();
        if size > MAX_SINGLE_BUFFER {
            return ;
        }
        let current = self.current_total();
        if size > MAX_TOTAL_BUFFERS - current {
            return ;
        }
        if self.entries.len() == self.slots {
            return ;
        }
        let mut buf = buf;
        buf.clear();
        let ghost snap = self.entries@;
        let ghost kept: (Seq<u8>, usize) = (buf@, size);
        let mut entries: Vec<(Vec<u8>, usize)> = Vec::new();
        core::mem::swap(&mut entries, &mut self.entries);
        entries.push((buf, size));
        proof {
            assert(entries@.drop_last() =~= snap);
            assert(entries@.last().0@ == kept.0 && entries@.last().1 == kept.1);
            assert forall|i: int| 0 <= i < entries@.len() implies #[trigger] entries@[i].0@.len()
                == 0 by {
                if i < entries@.len() - 1 {
                    assert(entries@[i] == snap[i]);
                }
            }
            assert forall|i: int| 0 <= i < entries@.len() implies #[trigger] entries@[i].1
                <= MAX_SINGLE_BUFFER by {
                if i < entries@.len() - 1 {
                    assert(entries@[i] == snap[i]);
                }
            }
            assert(sum_entry_sizes(entries@) == sum_entry_sizes(snap) + size);
            assert(entries@.map_values(|e: (Vec<u8>, usize)| e.1) =~= snap.map_values(
                |e: (Vec<u8>, usize)| e.1,
            ).push(size));
        }
        core::mem::swap(&mut entries, &mut self.entries);
    }

    /// How many buffers the pool holds right now.
    pub fn stored_count(&self) -> (r: usize)
        ensures
            r == self.pooled_count(),
    {
        self.entries.len()
    }

    /// The recorded sizes of the held buffers, summed; never over the
    /// aggregate cap.
    pub fn stored_bytes(&self) -> (r: usize)
        ensures
            r == self.pooled_bytes(),
            r <= MAX_TOTAL_BUFFERS,
    {
        proof {
            use_type_invariant(self);
        }
        self.current_total()
    }

    /// The recorded total, summed off the ledger.
    fn current_total(&self) -> (r: usize)
        ensures
            r == self.pooled_bytes(),
    {
        proof {
            use_type_invariant(self);
        }
        let mut acc: usize = 0;
        let mut i: usize = 0;
        while i < self.entries.len()
            invariant
                i <= self.entries@.len(),
                acc == sum_entry_sizes(self.entries@.subrange(0, i as int)),
                sum_entry_sizes(self.entries@) <= MAX_TOTAL_BUFFERS,
            decreases self.entries@.len() - i,
        {
            proof {
                lemma_sum_prefix(self.entries@, i + 1);
                assert(self.entries@.subrange(0, i + 1).drop_last() =~= self.entries@.subrange(
                    0,
                    i as int,
                ));
                assert(self.entries@.subrange(0, i + 1).last() == self.entries@[i as int]);
            }
            acc = acc + self.entries[i].1;
            i += 1;
        }
        proof {
            assert(self.entries@.subrange(0, self.entries@.len() as int) =~= self.entries@);
        }
        acc
    }
}

impl PoolReturn<Vec<u8>> for BufferPool {
    /// Returning through the trait applies the same size policy.
    fn return_value(&mut self, value: Vec<u8>) {
        self.return_buffer(value);
    }
}

} // verus!
