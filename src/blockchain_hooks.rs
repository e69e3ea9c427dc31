//! The fixture for the block and epoch getters: each entry point returns the
//! low byte of what the host reported.
use vstd::prelude::*;

use crate::host::{calls_view, one_call, HostCall, HostCallView};

verus! {

/// The low byte of `value`.
pub open spec fn low_byte(value: i64) -> u8 {
    (value & 0xff) as u8
}

/// Returns the low byte of `value` as a one-byte result.
pub fn finish_low_byte(value: i64) -> (r: Vec<HostCall>)
    ensures
        calls_view(r@) == seq![HostCallView::FinishBytes(seq![low_byte(value)])],
{
    assert(0 <= value & 0xff <= 0xff) by (bit_vector);
    let result: u8 = (value & 0xff) as u8;
    let data: Vec<u8> = vec![result];
    assert(data@ =~= seq![low_byte(value)]);
    one_call(HostCall::FinishBytes(data))
}

} // verus!
