//! The smallest fixture: one entry point that returns 4.
use vstd::prelude::*;

use crate::host::{calls_view, one_call, HostCall, HostCallView};

verus! {

/// Returns 4.
pub fn method() -> (r: Vec<HostCall>)
    ensures
        calls_view(r@) == seq![HostCallView::FinishI64(4)],
{
    one_call(HostCall::FinishI64(4))
}

} // verus!
