//! Sharing of immutable nodes.

use vstd::prelude::*;
use std::sync::Arc;

verus! {

/// `Arc::clone` of std: another pointer to the same allocation, and so to
/// the same value.
#[verifier::external_body]
pub(crate) fn share<T>(node: &Arc<T>) -> (r: Arc<T>)
    ensures
        r == *node,
{
    Arc::clone(node)
}

} // verus!
