//! What it means for a type to be faithfully duplicable.

use vstd::prelude::*;

verus! {

/// Holds when every result that `T::clone` can return is equal to the value
/// that was cloned.
///
/// [`Memory`](crate::Memory) and [`Recall`](crate::Recall) retain and hand out
/// duplicates of keys and results, so their contracts can pin a returned
/// duplicate down to the stored value only for types whose `clone` is faithful
/// in this sense. The standard library's specifications state exactly this for
/// the primitive integers and for `String`, among others, so for those types
/// the predicate is provable; for a type with a looser `clone`, the contracts
/// ask for it as a precondition rather than silently assuming it.
pub open spec fn clone_preserves_value<T: Clone>() -> bool {
    forall|a: T, b: T| #[trigger] call_ensures(T::clone, (&a,), b) ==> b == a
}

} // verus!
