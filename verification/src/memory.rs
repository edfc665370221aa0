//! A keyed memoizer: one cached result per distinct input.

use crate::cloning::clone_preserves_value;
use std::collections::HashMap;
use std::hash::Hash;
use vstd::prelude::*;
use vstd::std_specs::hash::obeys_key_model;

verus! {

/// A general purpose structure for memoization.
/// Useful when you will be memoizing multiple data points.
///
/// A `Memory` owns a computation and a cache mapping each input the
/// computation has been run on to the result it returned. [`Memory::resolve`]
/// consults the cache first and runs the computation only on a miss, so the
/// computation runs at most once per distinct key. Entries are never evicted:
/// they live as long as the instance.
pub struct Memory<T, TIn, TOut> {
    remember: T,
    values: HashMap<TIn, TOut>,
}

impl<T, TIn, TOut> Memory<T, TIn, TOut> where T: Fn(&TIn) -> TOut {
    /// The cached results, as a map from each resolved input to the output
    /// stored for it.
    pub closed spec fn cache(&self) -> Map<TIn, TOut> {
        self.values@
    }

    /// The computation that fills the cache on a miss.
    pub closed spec fn fun(&self) -> T {
        self.remember
    }

    /// Create a new `Memory`, providing a function for handling a cache miss.
    ///
    /// The provided function can return a different type than it accepts.
    /// Nothing is validated and nothing runs: the cache starts empty.
    pub fn new(remember: T) -> (r: Self)
        ensures
            r.cache() == Map::<TIn, TOut>::empty(),
            r.fun() == remember,
    {
        Self { remember, values: HashMap::new() }
    }

    /// Search the memory for the previous result of this input.
    ///
    /// On a hit the cached output is returned at once: the computation does
    /// not run and the cache does not change. On a miss the computation runs
    /// on the input, and its result is stored under the input and returned.
    ///
    /// The input is only borrowed, so the caller keeps ownership; a duplicate
    /// of it is retained as the cache key, and only on a miss.
    ///
    /// The preconditions ask only what the types must provide for the cache
    /// to be truthful: the key type must drive `HashMap` soundly
    /// (`obeys_key_model`), the duplicates taken of keys and results must
    /// equal their originals, and the computation must admit the input unless
    /// the answer is already cached.
    pub fn resolve(&mut self, input: &TIn) -> (r: TOut) where TIn: Clone + Eq + Hash, TOut: Clone
        requires
            obeys_key_model::<TIn>(),
            clone_preserves_value::<TIn>(),
            clone_preserves_value::<TOut>(),
            old(self).cache().contains_key(*input) || call_requires(old(self).fun(), (input,)),
        ensures
            final(self).fun() == old(self).fun(),
            resolve_effect(old(self).cache(), *input, r, final(self).cache()),
            old(self).cache().contains_key(*input) ==> r == old(self).cache()[*input],
            !old(self).cache().contains_key(*input) ==> call_ensures(
                old(self).fun(),
                (input,),
                r,
            ),
            final(self).cache().contains_key(*input),
            final(self).cache()[*input] == r,
    {
        if let Some(value) = self.values.get(input) {
            value.clone()
        } else {
            let result = (self.remember)(input);
            self.values.insert(input.clone(), result.clone());
            result
        }
    }
}

/// How one call of [`Memory::resolve`] changes the cache: a call that found
/// the cache at `cache0`, was asked for `k`, and returned `r` leaves the cache
/// at `cache1`. On a hit the cache is untouched and `r` is the entry of `k`;
/// on a miss the entry of `k` becomes `r` and nothing else changes.
pub open spec fn resolve_effect<TIn, TOut>(
    cache0: Map<TIn, TOut>,
    k: TIn,
    r: TOut,
    cache1: Map<TIn, TOut>,
) -> bool {
    &&& (cache0.contains_key(k) ==> r == cache0[k] && cache1 == cache0)
    &&& (!cache0.contains_key(k) ==> cache1 == cache0.insert(k, r))
}

/// Idempotence of caching: two consecutive `resolve` calls with the same key
/// yield equal outputs, and the second call leaves the cache exactly as the
/// first left it — so the underlying computation cannot have contributed more
/// than the one result the first call stored.
pub proof fn lemma_resolve_idempotent<TIn, TOut>(
    cache0: Map<TIn, TOut>,
    k: TIn,
    r1: TOut,
    cache1: Map<TIn, TOut>,
    r2: TOut,
    cache2: Map<TIn, TOut>,
)
    requires
        resolve_effect(cache0, k, r1, cache1),
        resolve_effect(cache1, k, r2, cache2),
    ensures
        r2 == r1,
        cache2 == cache1,
        cache1.contains_key(k) && cache1[k] == r1,
{
}

/// Per-key isolation: a `resolve` for key `k1` neither creates nor changes
/// the entry of any other key `k2`, so it can never satisfy a later request
/// for a key it was not asked about.
pub proof fn lemma_resolve_isolated<TIn, TOut>(
    cache0: Map<TIn, TOut>,
    k1: TIn,
    r: TOut,
    cache1: Map<TIn, TOut>,
    k2: TIn,
)
    requires
        k1 != k2,
        resolve_effect(cache0, k1, r, cache1),
    ensures
        cache1.contains_key(k2) == cache0.contains_key(k2),
        cache0.contains_key(k2) ==> cache1[k2] == cache0[k2],
{
}

/// Hits go by equality, not identity: keys that compare equal share one cache
/// entry, so a `resolve` for `k1` satisfies a later request for any key equal
/// to it, however that key was constructed.
pub proof fn lemma_resolve_equal_keys<TIn, TOut>(
    cache0: Map<TIn, TOut>,
    k1: TIn,
    r: TOut,
    cache1: Map<TIn, TOut>,
    k2: TIn,
)
    requires
        k1 == k2,
        resolve_effect(cache0, k1, r, cache1),
    ensures
        cache1.contains_key(k2),
        cache1[k2] == r,
{
}

} // verus!
