//! The simple child contract that promise fixtures call.
use vstd::prelude::*;
use vstd::string::StrSliceExecFns;
use vstd::string::StringSliceAdditionalSpecFns;

use crate::host::{
    calls_view, finishes, signals_error, wrong_arguments_calls, wrong_number_of_arguments, HostCall,
    HostCallView,
};

verus! {

/// Returns 42.
pub fn answer() -> (r: Vec<HostCall>)
    ensures
        calls_view(r@) == seq![HostCallView::FinishU64(42)],
{
    let r = vec![HostCall::FinishU64(42)];
    assert(calls_view(r@) =~= seq![HostCallView::FinishU64(42)]);
    r
}

/// Returns 24, a value callers do not expect.
pub fn answer_wrong() -> (r: Vec<HostCall>)
    ensures
        calls_view(r@) == seq![HostCallView::FinishU64(24)],
{
    let r = vec![HostCall::FinishU64(24)];
    assert(calls_view(r@) =~= seq![HostCallView::FinishU64(24)]);
    r
}

/// Returns its single argument; aborts unless given exactly one.
pub fn echo(args: &Vec<u64>) -> (r: Vec<HostCall>)
    ensures
        args@.len() == 1 ==> calls_view(r@) == seq![HostCallView::FinishU64(args@[0])],
        args@.len() != 1 ==> calls_view(r@) == wrong_arguments_calls(),
{
    if args.len() != 1 {
        return wrong_number_of_arguments();
    }
    let arg = args[0];
    let r = vec![HostCall::FinishU64(arg)];
    assert(calls_view(r@) =~= seq![HostCallView::FinishU64(args@[0])]);
    r
}

/// Aborts with the message "fail".
pub fn fail() -> (r: Vec<HostCall>)
    ensures
        calls_view(r@) == seq![HostCallView::SignalError("fail".spec_bytes())],
        signals_error(calls_view(r@)),
        !finishes(calls_view(r@)),
{
    let r = vec![HostCall::SignalError("fail".as_bytes_vec())];
    assert(calls_view(r@) =~= seq![HostCallView::SignalError("fail".spec_bytes())]);
    assert(calls_view(r@)[0] is SignalError);
    r
}

} // verus!
