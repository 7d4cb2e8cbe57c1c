//! Trusted surface over `std::sync::Arc`, the reference-counted model handle.
//!
//! Exclusivity is reclaimed by watching the strong count and then asking for a
//! mutable view; both steps depend on what other threads hold, so the
//! contracts state only what holds of every outcome.

use vstd::prelude::*;

use std::sync::Arc;

verus! {

/// Relies on `Arc::clone`: returns a fresh handle to the same allocation,
/// leaving the contents untouched.
#[verifier::external_body]
pub(crate) fn arc_clone<M>(a: &Arc<M>) -> (r: Arc<M>)
    ensures
        r == *a,
{
    Arc::clone(a)
}

/// Relies on `Arc::strong_count`: the number of live strong handles at the
/// moment of the call. At least one, since the caller holds one; other
/// threads may change the count at any time.
#[verifier::external_body]
pub(crate) fn arc_strong_count<M>(a: &Arc<M>) -> (n: usize)
    ensures
        n >= 1,
{
    Arc::strong_count(a)
}

/// Relies on `Arc::get_mut`: yields a mutable view only while this handle is
/// the sole strong owner, so the view aliases no other holder's; on `None`
/// the handle and its contents are left as they were.
#[verifier::external_body]
pub(crate) fn arc_get_mut<M>(a: &mut Arc<M>) -> (r: Option<&mut M>)
    ensures
        match r {
            None => *final(a) == *old(a),
            Some(m) => *m == *old(a) && *final(a) == *final(m),
        },
{
    Arc::get_mut(a)
}

/// Relies on `Arc::deref` (through `as_ref`): a shared view of the contents.
#[verifier::external_body]
pub(crate) fn arc_borrow<M>(a: &Arc<M>) -> (r: &M)
    ensures
        *r == *a,
{
    a.as_ref()
}

} // verus!
