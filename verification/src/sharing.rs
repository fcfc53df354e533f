//! Shared ownership of state read by several handles.

use vstd::prelude::*;

use std::sync::Arc;

verus! {

/// Calls `Arc::clone`, which makes another pointer to the same allocation:
/// the clone points to the very value the original points to.
#[verifier::external_body]
pub(crate) fn share<T>(shared: &Arc<T>) -> (r: Arc<T>)
    ensures
        r == *shared,
{
    shared.clone()
}

} // verus!
