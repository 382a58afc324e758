//! The batch-loader core: the coalescing-window state machine and the
//! per-key distribution of bulk fetch results.
//!
//! The asynchronous loader runtime drives this core under one lock per
//! key-space.  Each `load` call registers its key in the pending batch;
//! exactly the call that finds the window idle schedules the single delayed
//! flush.  The flush takes the whole batch, hands its key list to the bulk
//! fetch, and distributes the result map back to the callers in key order:
//! a caller whose key the fetch omitted resolves to `None`, never to an
//! error and never to another caller's value.

use vstd::prelude::*;

verus! {

/// A key type the loader can fan results out over: equality of keys is
/// decidable and agrees with equality of their abstract values.
pub trait LoaderKey: View + Sized {
    /// Compare two keys.
    fn key_eq(&self, other: &Self) -> (b: bool)
        ensures
            b == (self@ == other@),
    ;
}

impl LoaderKey for i64 {
    fn key_eq(&self, other: &Self) -> (b: bool) {
        *self == *other
    }
}

impl LoaderKey for u64 {
    fn key_eq(&self, other: &Self) -> (b: bool) {
        *self == *other
    }
}

impl LoaderKey for String {
    fn key_eq(&self, other: &Self) -> (b: bool) {
        *self == *other
    }
}

/// A value type the loader can hand to several callers: a value can be
/// duplicated without changing its abstract value.
pub trait LoaderValue: View + Sized {
    /// Duplicate the value.
    fn dup_value(&self) -> (r: Self)
        ensures
            r@ == self@,
    ;
}

impl LoaderValue for i64 {
    fn dup_value(&self) -> (r: Self) {
        *self
    }
}

impl LoaderValue for u64 {
    fn dup_value(&self) -> (r: Self) {
        *self
    }
}

impl LoaderValue for bool {
    fn dup_value(&self) -> (r: Self) {
        *self
    }
}

impl LoaderValue for String {
    fn dup_value(&self) -> (r: Self) {
        self.clone()
    }
}

/// Abstract state of one coalescing window.
pub struct BatchView<K> {
    pub keys: Seq<K>,
    pub scheduled: bool,
}

/// The pending batch of one key-space: the keys requested during the current
/// coalescing window, in arrival order and with duplicates preserved, and
/// whether this window's single flush has been scheduled.  The runtime keeps
/// the callers' completion handles in a parallel list: the caller registered
/// `i`-th is fulfilled from the `i`-th slot of [`distribute`]'s output.
pub struct PendingBatch<K> {
    keys: Vec<K>,
    scheduled: bool,
}

impl<K> View for PendingBatch<K> {
    type V = BatchView<K>;

    closed spec fn view(&self) -> BatchView<K> {
        BatchView { keys: self.keys@, scheduled: self.scheduled }
    }
}

/// The state of a window nobody has used yet: no keys, no flush scheduled.
pub open spec fn fresh_batch<K>() -> BatchView<K> {
    BatchView { keys: Seq::empty(), scheduled: false }
}

/// Registering a key appends it and leaves the window scheduled.
pub open spec fn register_state<K>(m: BatchView<K>, key: K) -> BatchView<K> {
    BatchView { keys: m.keys.push(key), scheduled: true }
}

/// Exactly a registration that finds the window idle schedules the flush.
pub open spec fn register_schedules<K>(m: BatchView<K>) -> bool {
    !m.scheduled
}

impl<K> PendingBatch<K> {
    /// An empty, unscheduled batch.
    pub fn new() -> (r: Self)
        ensures
            r@ == fresh_batch::<K>(),
    {
        PendingBatch { keys: Vec::new(), scheduled: false }
    }

    /// The number of keys registered in the current window.
    pub fn len(&self) -> (n: usize)
        ensures
            n == self@.keys.len(),
    {
        self.keys.len()
    }

    /// Register one requested key.  The result says whether this call must
    /// schedule the window's flush: true exactly when the window was idle,
    /// so one window never schedules two flushes.
    pub fn register(&mut self, key: K) -> (schedule: bool)
        ensures
            final(self)@ == register_state(old(self)@, key),
            schedule == register_schedules(old(self)@),
    {
        let schedule = !self.scheduled;
        self.keys.push(key);
        self.scheduled = true;
        schedule
    }

    /// Take the whole batch for flushing, leaving a fresh window behind:
    /// calls arriving during or after the fetch accumulate anew.
    pub fn take(&mut self) -> (b: Self)
        ensures
            b@ == old(self)@,
            final(self)@ == fresh_batch::<K>(),
    {
        let mut b = PendingBatch { keys: Vec::new(), scheduled: false };
        core::mem::swap(&mut b, self);
        b
    }

    /// Give up the batch, handing out its key list for the bulk fetch.
    pub fn into_keys(self) -> (r: Vec<K>)
        ensures
            r@ == self@.keys,
    {
        self.keys
    }
}

impl<K> Default for PendingBatch<K> {
    /// An empty, unscheduled batch.
    fn default() -> (r: Self)
        ensures
            r@ == fresh_batch::<K>(),
    {
        PendingBatch::new()
    }
}

/// The value a fetch result associates with a key: the first pair holding
/// the key decides, and a key no pair holds resolves to `None`.
pub open spec fn lookup_value<K: View, V: View>(pairs: Seq<(K, V)>, key: K::V) -> Option<V::V>
    decreases pairs.len(),
{
    if pairs.len() == 0 {
        None
    } else if pairs.first().0@ == key {
        Some(pairs.first().1@)
    } else {
        lookup_value(pairs.drop_first(), key)
    }
}

/// Abstract value of an optional value.
pub open spec fn opt_view<V: View>(o: Option<V>) -> Option<V::V> {
    match o {
        Some(v) => Some(v@),
        None => None,
    }
}

/// Find the value a fetch result associates with a key.
fn lookup_result<K: LoaderKey, V: LoaderValue>(results: &Vec<(K, V)>, key: &K) -> (r: Option<V>)
    ensures
        opt_view(r) == lookup_value(results@, key@),
{
    let mut i: usize = 0;
    proof {
        assert(results@.skip(0) =~= results@);
    }
    while i < results.len()
        invariant
            0 <= i <= results.len(),
            lookup_value(results@, key@) == lookup_value(results@.skip(i as int), key@),
        decreases results.len() - i,
    {
        proof {
            assert(results@.skip(i as int).first() == results@[i as int]);
            assert(results@.skip(i as int).drop_first() =~= results@.skip(i as int + 1));
        }
        if results[i].0.key_eq(key) {
            let v = results[i].1.dup_value();
            return Some(v);
        }
        i = i + 1;
    }
    proof {
        assert(results@.skip(results@.len() as int) =~= Seq::empty());
    }
    None
}

/// Distribute a bulk fetch result back to the callers of one window: the
/// caller who registered the `i`-th key receives exactly the value the
/// result associates with that key, `None` when the result omits it.
pub fn distribute<K: LoaderKey, V: LoaderValue>(keys: &Vec<K>, results: &Vec<(K, V)>) -> (out: Vec<
    Option<V>,
>)
    ensures
        out@.len() == keys@.len(),
        forall|i: int|
            0 <= i < keys@.len() ==> opt_view(#[trigger] out@[i]) == lookup_value(
                results@,
                keys@[i]@,
            ),
{
    let mut out: Vec<Option<V>> = Vec::new();
    let mut i: usize = 0;
    while i < keys.len()
        invariant
            0 <= i <= keys.len(),
            out@.len() == i,
            forall|j: int|
                0 <= j < i ==> opt_view(#[trigger] out@[j]) == lookup_value(results@, keys@[j]@),
        decreases keys.len() - i,
    {
        let r = lookup_result(results, &keys[i]);
        out.push(r);
        i = i + 1;
    }
    out
}

/// The window state after a sequence of registrations.
pub open spec fn run_window<K>(m: BatchView<K>, loads: Seq<K>) -> BatchView<K>
    decreases loads.len(),
{
    if loads.len() == 0 {
        m
    } else {
        run_window(register_state(m, loads.first()), loads.drop_first())
    }
}

/// How many of a sequence of registrations schedule a flush.
pub open spec fn window_schedules<K>(m: BatchView<K>, loads: Seq<K>) -> int
    decreases loads.len(),
{
    if loads.len() == 0 {
        0
    } else {
        (if register_schedules(m) {
            1int
        } else {
            0int
        }) + window_schedules(register_state(m, loads.first()), loads.drop_first())
    }
}

/// Registrations from any starting state: the keys accumulate in arrival
/// order behind what was already there, and at most one flush is scheduled —
/// none at all when the window was already scheduled.
pub proof fn lemma_window_general<K>(m: BatchView<K>, loads: Seq<K>)
    ensures
        run_window(m, loads).keys == m.keys + loads,
        run_window(m, loads).scheduled == (m.scheduled || loads.len() > 0),
        window_schedules(m, loads) == if m.scheduled || loads.len() == 0 {
            0int
        } else {
            1int
        },
    decreases loads.len(),
{
    if loads.len() == 0 {
        assert(m.keys + loads =~= m.keys);
    } else {
        lemma_window_general(register_state(m, loads.first()), loads.drop_first());
        assert(m.keys.push(loads.first()) + loads.drop_first() =~= m.keys + loads);
    }
}

/// Coalescing law: however many concurrent `load` calls one window receives,
/// the batch accumulates exactly their keys, in order and with duplicates
/// preserved, and exactly one of the calls schedules the flush — none when
/// the window stays empty.  The flush fetches once per window.
pub proof fn lemma_coalescing<K>(loads: Seq<K>)
    ensures
        run_window(fresh_batch::<K>(), loads).keys == loads,
        run_window(fresh_batch::<K>(), loads).scheduled == (loads.len() > 0),
        window_schedules(fresh_batch::<K>(), loads) == if loads.len() == 0 {
            0int
        } else {
            1int
        },
{
    lemma_window_general(fresh_batch::<K>(), loads);
    assert(Seq::<K>::empty() + loads =~= loads);
}

/// Window re-opening law: taking the batch leaves a fresh window, so loads
/// issued after a flush has started accumulate into a new window of their
/// own, and exactly one of them schedules a new, independent flush.
pub proof fn lemma_window_reopening<K>(loads_after_flush: Seq<K>)
    requires
        loads_after_flush.len() > 0,
    ensures
        run_window(fresh_batch::<K>(), loads_after_flush).keys == loads_after_flush,
        window_schedules(fresh_batch::<K>(), loads_after_flush) == 1,
{
    lemma_coalescing(loads_after_flush);
}

/// A key whose first occurrence in the fetch result is at position `i`
/// resolves to exactly the value paired with it there.
pub proof fn lemma_lookup_first_occurrence<K: View, V: View>(pairs: Seq<(K, V)>, i: int)
    requires
        0 <= i < pairs.len(),
        forall|j: int| 0 <= j < i ==> (#[trigger] pairs[j]).0@ != pairs[i].0@,
    ensures
        lookup_value(pairs, pairs[i].0@) == Some(pairs[i].1@),
    decreases i,
{
    if i == 0 {
    } else {
        assert(pairs.first().0@ != pairs[i].0@);
        assert(pairs.drop_first()[i - 1] == pairs[i]);
        assert forall|j: int| 0 <= j < i - 1 implies (#[trigger] pairs.drop_first()[j]).0@
            != pairs.drop_first()[i - 1].0@ by {
            assert(pairs.drop_first()[j] == pairs[j + 1]);
        }
        lemma_lookup_first_occurrence(pairs.drop_first(), i - 1);
    }
}

/// Fan-out law: two callers whose keys differ each receive the value the
/// fetch result maps to their own key, never the other's.
pub proof fn lemma_fan_out<K: View, V: View>(pairs: Seq<(K, V)>, i1: int, i2: int)
    requires
        0 <= i1 < pairs.len(),
        0 <= i2 < pairs.len(),
        pairs[i1].0@ != pairs[i2].0@,
        forall|j: int| 0 <= j < i1 ==> (#[trigger] pairs[j]).0@ != pairs[i1].0@,
        forall|j: int| 0 <= j < i2 ==> (#[trigger] pairs[j]).0@ != pairs[i2].0@,
    ensures
        lookup_value(pairs, pairs[i1].0@) == Some(pairs[i1].1@),
        lookup_value(pairs, pairs[i2].0@) == Some(pairs[i2].1@),
{
    lemma_lookup_first_occurrence(pairs, i1);
    lemma_lookup_first_occurrence(pairs, i2);
}

/// Missing-key law: a key the fetch result does not hold at all resolves to
/// `None` — not to an error, and the caller is not left hanging.
pub proof fn lemma_missing_key_resolves_none<K: View, V: View>(pairs: Seq<(K, V)>, key: K::V)
    requires
        forall|j: int| 0 <= j < pairs.len() ==> (#[trigger] pairs[j]).0@ != key,
    ensures
        lookup_value(pairs, key) is None,
    decreases pairs.len(),
{
    if pairs.len() == 0 {
    } else {
        assert forall|j: int| 0 <= j < pairs.drop_first().len() implies (
        #[trigger] pairs.drop_first()[j]).0@ != key by {
            assert(pairs.drop_first()[j] == pairs[j + 1]);
        }
        lemma_missing_key_resolves_none(pairs.drop_first(), key);
    }
}

} // verus!
