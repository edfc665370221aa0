//! A one-shot lazy cell: a computation evaluated at most once.

use crate::cloning::clone_preserves_value;
use vstd::prelude::*;

verus! {

/// A general purpose structure for a one-time lazy evaluation.
/// Useful when you want to declare the logic now,
/// but execute it later (and only once!).
///
/// A `Recall` owns a zero-argument computation and a slot for its result.
/// The slot starts empty; the first call of [`Recall::value`] runs the
/// computation and fills the slot, and every later call returns the stored
/// result without running the computation again.
pub struct Recall<T, TOut> {
    evaluator: T,
    value: Option<TOut>,
}

impl<T, TOut> Recall<T, TOut> where T: Fn() -> TOut, TOut: Clone {
    /// The slot: `None` while the computation has not yet run, and
    /// `Some` of the stored result afterwards.
    pub closed spec fn stored(&self) -> Option<TOut> {
        self.value
    }

    /// The computation whose result is evaluated lazily.
    pub closed spec fn fun(&self) -> T {
        self.evaluator
    }

    /// Create a new `Recall`, providing the lazy-evaluated function
    /// that will resolve the expected value.
    ///
    /// Nothing runs at construction time: laziness is the point.
    pub fn new(evaluator: T) -> (r: Self)
        ensures
            r.stored() is None,
            r.fun() == evaluator,
    {
        Self { evaluator, value: None }
    }

    /// Resolve the lazy-evaluated function and return the value.
    ///
    /// If the function has already resolved, a duplicate of the stored value
    /// is returned immediately and the instance — the evaluator included —
    /// is left exactly as it was. Otherwise the function runs once and its
    /// result is both stored and returned.
    pub fn value(&mut self) -> (r: TOut)
        requires
            clone_preserves_value::<TOut>(),
            old(self).stored() is Some || call_requires(old(self).fun(), ()),
        ensures
            final(self).fun() == old(self).fun(),
            value_effect(old(self).stored(), r, final(self).stored()),
            old(self).stored() is Some ==> *final(self) == *old(self),
            old(self).stored() is None ==> call_ensures(old(self).fun(), (), r),
            final(self).stored() == Some(r),
    {
        if let Some(value) = &self.value {
            value.clone()
        } else {
            let value = (self.evaluator)();
            self.value = Some(value.clone());
            value
        }
    }
}

/// How one call of [`Recall::value`] changes the slot: a call that found the
/// slot at `stored0` and returned `r` leaves the slot at `stored1`. An
/// occupied slot is returned as found and kept; an empty slot is filled with
/// exactly the returned value.
pub open spec fn value_effect<TOut>(
    stored0: Option<TOut>,
    r: TOut,
    stored1: Option<TOut>,
) -> bool {
    &&& (stored0 is Some ==> stored0 == Some(r) && stored1 == stored0)
    &&& (stored0 is None ==> stored1 == Some(r))
}

/// Single evaluation: whatever the first call of `value` returned, every
/// later call returns that same result and leaves the slot untouched — the
/// computation can have contributed at most the one result that filled the
/// slot.
pub proof fn lemma_value_single_evaluation<TOut>(
    stored0: Option<TOut>,
    r1: TOut,
    stored1: Option<TOut>,
    r2: TOut,
    stored2: Option<TOut>,
)
    requires
        value_effect(stored0, r1, stored1),
        value_effect(stored1, r2, stored2),
    ensures
        r2 == r1,
        stored2 == stored1,
        stored1 == Some(r1),
{
}

} // verus!
