use std::sync::Arc;
use vstd::prelude::*;

verus! {

/// `Arc::clone`: one more handle to the value behind the handle given.
#[verifier::external_body]
pub(crate) fn share<T>(handle: &Arc<T>) -> (shared: Arc<T>)
    ensures
        shared == *handle,
{
    Arc::clone(handle)
}

/// The values behind a row of handles.
pub open spec fn values_behind<T>(handles: Seq<Arc<T>>) -> Seq<T> {
    handles.map_values(|h: Arc<T>| *h)
}

} // verus!
