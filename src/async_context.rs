//! The async-context fixture: entry points that return at once.
use vstd::prelude::*;

use crate::host::{calls_view, one_call, HostCall, HostCallView};

verus! {

/// Returns 42 without calling anyone.
pub fn no_async() -> (r: Vec<HostCall>)
    ensures
        calls_view(r@) == seq![HostCallView::FinishI64(42)],
{
    one_call(HostCall::FinishI64(42))
}

/// Does nothing.
pub fn one_async_call_no_cb() -> (r: Vec<HostCall>)
    ensures
        calls_view(r@) == Seq::<HostCallView>::empty(),
{
    let r: Vec<HostCall> = Vec::new();
    assert(calls_view(r@) =~= Seq::<HostCallView>::empty());
    r
}

} // verus!
