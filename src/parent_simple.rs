//! The simple parent contract: it calls the child asynchronously and records
//! the replies its callbacks receive.
use vstd::prelude::*;
use vstd::string::StringSliceAdditionalSpecFns;

use crate::host::{calls_view, lemma_empty_name, one_call, two_calls, wrong_arguments_calls, wrong_number_of_arguments, HostCall, HostCallView};
use crate::promises_common::{
    async_call_view, bytes_replies_calls, child_address, create_async_call, named_address,
    slot_key, store_bytes_replies, store_u64_replies, u64_replies_calls, zero_value, GAS_100K,
    GAS_100M, GAS_10M, GAS_5M,
};

verus! {

pub const SUCCESS_CALLBACK_ARGUMENT_KEY: &'static str = "SuccessCallbackArg";
pub const FAIL_CALLBACK_ARGUMENT_KEY: &'static str = "FailCallbackArg";
pub const CURRENT_STORAGE_INDEX_KEY: &'static str = "CurrentStorageIndex";

pub const COMMON_GROUP_ID: &'static str = "testgroup";
pub const SUCCESS_CALLBACK_ONE_ARG_NAME: &'static str = "success_callback_one_arg";
pub const FAIL_CALLBACK_NAME: &'static str = "fail_callback";

/// The host call that calls the child with `data` and `value` in the common
/// group.
pub open spec fn child_call(
    value: Seq<u8>,
    data: Seq<u8>,
    success_callback: Seq<u8>,
    error_callback: Seq<u8>,
    gas: i64,
) -> HostCallView {
    async_call_view(
        COMMON_GROUP_ID.spec_bytes(),
        named_address("childSC"),
        value,
        data,
        success_callback,
        error_callback,
        gas,
    )
}

/// A value of 16, as 32 big-endian bytes.
pub open spec fn value_sixteen() -> Seq<u8> {
    Seq::new(32, |i: int| if i == 31 { 16u8 } else { 0u8 })
}

/// Returns 42 without calling anyone.
pub fn no_async() -> (r: Vec<HostCall>)
    ensures
        calls_view(r@) == seq![HostCallView::FinishI64(42)],
{
    let r = vec![HostCall::FinishI64(42)];
    assert(calls_view(r@) =~= seq![HostCallView::FinishI64(42)]);
    r
}

fn call_child_contract(
    value: &[u8],
    data: &str,
    success_callback: &str,
    error_callback: &str,
    gas: i64,
) -> (r: HostCall)
    requires
        value@.len() == 32,
    ensures
        r@ == child_call(
            value@,
            data.spec_bytes(),
            success_callback.spec_bytes(),
            error_callback.spec_bytes(),
            gas,
        ),
{
    let child = child_address();
    assert(value@.take(32) =~= value@);
    create_async_call(
        COMMON_GROUP_ID.as_bytes(),
        &child,
        value,
        data.as_bytes(),
        success_callback.as_bytes(),
        error_callback.as_bytes(),
        gas,
    )
}

/// Calls the child's `answer` with a value of 16 and no callbacks.
pub fn one_async_call_no_cb_with_call_value() -> (r: Vec<HostCall>)
    ensures
        calls_view(r@) == seq![
            child_call(value_sixteen(), "answer".spec_bytes(), seq![], seq![], GAS_100K),
        ],
{
    let mut value: [u8; 32] = [0; 32];
    value[31] = 16;
    assert(value@ =~= value_sixteen());
    proof {
        lemma_empty_name();
    }
    one_call(call_child_contract(value.as_slice(), "answer", "", "", GAS_100K))
}

/// Calls the child's `fail` with no callbacks.
pub fn one_async_call_no_cb_fail() -> (r: Vec<HostCall>)
    ensures
        calls_view(r@) == seq![
            child_call(zero_value(), "fail".spec_bytes(), seq![], seq![], GAS_100K),
        ],
{
    let zero: [u8; 32] = [0; 32];
    assert(zero@ =~= zero_value());
    proof {
        lemma_empty_name();
    }
    one_call(call_child_contract(zero.as_slice(), "fail", "", "", GAS_100K))
}

/// Calls the child's `fail` with a value of 16 and no callbacks.
pub fn one_async_call_no_cb_fail_with_call_value() -> (r: Vec<HostCall>)
    ensures
        calls_view(r@) == seq![
            child_call(value_sixteen(), "fail".spec_bytes(), seq![], seq![], GAS_100K),
        ],
{
    let mut value: [u8; 32] = [0; 32];
    value[31] = 16;
    assert(value@ =~= value_sixteen());
    proof {
        lemma_empty_name();
    }
    one_call(call_child_contract(value.as_slice(), "fail", "", "", GAS_100K))
}

/// Calls the child's `answer` with a success callback only.
pub fn one_async_call_success_cb() -> (r: Vec<HostCall>)
    ensures
        calls_view(r@) == seq![
            child_call(zero_value(), "answer".spec_bytes(), SUCCESS_CALLBACK_ONE_ARG_NAME.spec_bytes(), seq![], GAS_100K),
        ],
{
    let zero: [u8; 32] = [0; 32];
    assert(zero@ =~= zero_value());
    proof {
        lemma_empty_name();
    }
    one_call(call_child_contract(zero.as_slice(), "answer", SUCCESS_CALLBACK_ONE_ARG_NAME, "", GAS_100K))
}

/// Calls the child's `fail` with an error callback only.
pub fn one_async_call_fail_cb() -> (r: Vec<HostCall>)
    ensures
        calls_view(r@) == seq![
            child_call(zero_value(), "fail".spec_bytes(), seq![], FAIL_CALLBACK_NAME.spec_bytes(), GAS_100K),
        ],
{
    let zero: [u8; 32] = [0; 32];
    assert(zero@ =~= zero_value());
    proof {
        lemma_empty_name();
    }
    one_call(call_child_contract(zero.as_slice(), "fail", "", FAIL_CALLBACK_NAME, GAS_100K))
}

/// Calls the child's `echo` twice, with 1 then 2, sharing both callbacks.
pub fn two_async_same_cb_success_both() -> (r: Vec<HostCall>)
    ensures
        calls_view(r@) == seq![
            child_call(zero_value(), "echo@01".spec_bytes(), SUCCESS_CALLBACK_ONE_ARG_NAME.spec_bytes(), FAIL_CALLBACK_NAME.spec_bytes(), GAS_10M),
            child_call(zero_value(), "echo@02".spec_bytes(), SUCCESS_CALLBACK_ONE_ARG_NAME.spec_bytes(), FAIL_CALLBACK_NAME.spec_bytes(), GAS_10M),
        ],
{
    let zero: [u8; 32] = [0; 32];
    assert(zero@ =~= zero_value());
    let first = call_child_contract(zero.as_slice(), "echo@01", SUCCESS_CALLBACK_ONE_ARG_NAME, FAIL_CALLBACK_NAME, GAS_10M);
    let second = call_child_contract(zero.as_slice(), "echo@02", SUCCESS_CALLBACK_ONE_ARG_NAME, FAIL_CALLBACK_NAME, GAS_10M);
    two_calls(first, second)
}

/// Calls the child's `echo` with 1, then its `fail`, sharing both callbacks.
pub fn two_async_same_cb_success_first_fail_second() -> (r: Vec<HostCall>)
    ensures
        calls_view(r@) == seq![
            child_call(zero_value(), "echo@01".spec_bytes(), SUCCESS_CALLBACK_ONE_ARG_NAME.spec_bytes(), FAIL_CALLBACK_NAME.spec_bytes(), GAS_5M),
            child_call(zero_value(), "fail".spec_bytes(), SUCCESS_CALLBACK_ONE_ARG_NAME.spec_bytes(), FAIL_CALLBACK_NAME.spec_bytes(), GAS_5M),
        ],
{
    let zero: [u8; 32] = [0; 32];
    assert(zero@ =~= zero_value());
    let first = call_child_contract(zero.as_slice(), "echo@01", SUCCESS_CALLBACK_ONE_ARG_NAME, FAIL_CALLBACK_NAME, GAS_5M);
    let second = call_child_contract(zero.as_slice(), "fail", SUCCESS_CALLBACK_ONE_ARG_NAME, FAIL_CALLBACK_NAME, GAS_5M);
    two_calls(first, second)
}

/// Calls the child's `fail`, then its `echo` with 2, sharing both callbacks.
pub fn two_async_same_cb_fail_first_success_second() -> (r: Vec<HostCall>)
    ensures
        calls_view(r@) == seq![
            child_call(zero_value(), "fail".spec_bytes(), SUCCESS_CALLBACK_ONE_ARG_NAME.spec_bytes(), FAIL_CALLBACK_NAME.spec_bytes(), GAS_100M),
            child_call(zero_value(), "echo@02".spec_bytes(), SUCCESS_CALLBACK_ONE_ARG_NAME.spec_bytes(), FAIL_CALLBACK_NAME.spec_bytes(), GAS_100M),
        ],
{
    let zero: [u8; 32] = [0; 32];
    assert(zero@ =~= zero_value());
    let first = call_child_contract(zero.as_slice(), "fail", SUCCESS_CALLBACK_ONE_ARG_NAME, FAIL_CALLBACK_NAME, GAS_100M);
    let second = call_child_contract(zero.as_slice(), "echo@02", SUCCESS_CALLBACK_ONE_ARG_NAME, FAIL_CALLBACK_NAME, GAS_100M);
    two_calls(first, second)
}

/// Calls the child's `fail` twice, with an error callback only.
pub fn two_async_same_cb_fail_both() -> (r: Vec<HostCall>)
    ensures
        calls_view(r@) == seq![
            child_call(zero_value(), "fail".spec_bytes(), seq![], FAIL_CALLBACK_NAME.spec_bytes(), GAS_100K),
            child_call(zero_value(), "fail".spec_bytes(), seq![], FAIL_CALLBACK_NAME.spec_bytes(), GAS_100K),
        ],
{
    let zero: [u8; 32] = [0; 32];
    assert(zero@ =~= zero_value());
    proof {
        lemma_empty_name();
    }
    let first = call_child_contract(zero.as_slice(), "fail", "", FAIL_CALLBACK_NAME, GAS_100K);
    let second = call_child_contract(zero.as_slice(), "fail", "", FAIL_CALLBACK_NAME, GAS_100K);
    two_calls(first, second)
}

/// What the success callback does at storage index `index` with `args`.
pub open spec fn success_callback_one_arg_calls(index: u64, args: Seq<u64>) -> Seq<HostCallView> {
    if args.len() != 2 {
        wrong_arguments_calls()
    } else {
        u64_replies_calls(
            SUCCESS_CALLBACK_ARGUMENT_KEY.spec_bytes(),
            CURRENT_STORAGE_INDEX_KEY.spec_bytes(),
            index,
            args,
        )
    }
}

/// What the error callback does at storage index `index` with `args`.
pub open spec fn fail_callback_calls(index: u64, args: Seq<Seq<u8>>) -> Seq<HostCallView> {
    if args.len() != 2 {
        wrong_arguments_calls()
    } else {
        bytes_replies_calls(
            FAIL_CALLBACK_ARGUMENT_KEY.spec_bytes(),
            CURRENT_STORAGE_INDEX_KEY.spec_bytes(),
            index,
            args,
        )
    }
}

/// Success callback. Its two arguments are the status ("0" for success) and
/// the value the callee returned. Given the index stored under
/// `CurrentStorageIndex`, it stores each argument in the next free slot under
/// `SuccessCallbackArg`, then the new index.
pub fn success_callback_one_arg(storage_index: u64, args: &Vec<u64>) -> (r: Vec<HostCall>)
    requires
        args@.len() == 2 ==> storage_index + 2 <= u64::MAX,
    ensures
        calls_view(r@) == success_callback_one_arg_calls(storage_index, args@),
{
    let expected_num_args: usize = 2;
    if args.len() != expected_num_args {
        return wrong_number_of_arguments();
    }
    store_u64_replies(
        SUCCESS_CALLBACK_ARGUMENT_KEY.as_bytes(),
        CURRENT_STORAGE_INDEX_KEY.as_bytes(),
        storage_index,
        args,
    )
}

/// Error callback. Its two arguments are the error code and the error
/// message. Given the index stored under `CurrentStorageIndex`, it stores each
/// argument in the next free slot under `FailCallbackArg`, then the new index.
pub fn fail_callback(storage_index: u64, args: &Vec<Vec<u8>>) -> (r: Vec<HostCall>)
    requires
        args@.len() == 2 ==> storage_index + 2 <= u64::MAX,
    ensures
        calls_view(r@) == fail_callback_calls(storage_index, args@.map_values(|a: Vec<u8>| a@)),
{
    let expected_num_args: usize = 2;
    if args.len() != expected_num_args {
        return wrong_number_of_arguments();
    }
    store_bytes_replies(
        FAIL_CALLBACK_ARGUMENT_KEY.as_bytes(),
        CURRENT_STORAGE_INDEX_KEY.as_bytes(),
        storage_index,
        args,
    )
}

/// The key of slot `index` under the success callback's prefix.
pub open spec fn success_slot(index: int) -> Seq<u8> {
    slot_key(SUCCESS_CALLBACK_ARGUMENT_KEY.spec_bytes(), index)
}

/// Storing `value` in slot `index` under the success callback's prefix.
pub open spec fn success_slot_store(index: int, value: u64) -> HostCallView {
    HostCallView::StoreU64 { key: success_slot(index), value }
}

/// Storing the next free index.
pub open spec fn index_store(index: int) -> HostCallView {
    HostCallView::StoreU64 { key: CURRENT_STORAGE_INDEX_KEY.spec_bytes(), value: index as u64 }
}

/// Two replies that reach the success callback one after the other, the
/// second at the index that the first stored, are kept apart: each value of
/// each reply goes to a slot of its own, and the stored index grows by two
/// with each reply. Four consecutive indices never share a low byte, so the
/// slots stay distinct even where the index passes a multiple of 256.
pub proof fn lemma_sequential_replies_in_distinct_slots(
    index: u64,
    first: Seq<u64>,
    second: Seq<u64>,
)
    requires
        first.len() == 2,
        second.len() == 2,
        index + 4 <= u64::MAX,
    ensures
        success_callback_one_arg_calls(index, first) == seq![
            success_slot_store(index as int, first[0]),
            success_slot_store(index + 1, first[1]),
            index_store(index + 2),
        ],
        success_callback_one_arg_calls((index + 2) as u64, second) == seq![
            success_slot_store(index + 2, second[0]),
            success_slot_store(index + 3, second[1]),
            index_store(index + 4),
        ],
        forall|k: int, l: int|
            index <= k < l < index + 4 ==> #[trigger] success_slot(k) != #[trigger] success_slot(l),
{
    let prefix = SUCCESS_CALLBACK_ARGUMENT_KEY.spec_bytes();
    assert(success_callback_one_arg_calls(index, first) =~= seq![
        success_slot_store(index as int, first[0]),
        success_slot_store(index + 1, first[1]),
        index_store(index + 2),
    ]);
    assert(success_callback_one_arg_calls((index + 2) as u64, second) =~= seq![
        success_slot_store(index + 2, second[0]),
        success_slot_store(index + 3, second[1]),
        index_store(index + 4),
    ]);
    assert forall|k: int, l: int| index <= k < l < index + 4 implies #[trigger] success_slot(k)
        != #[trigger] success_slot(l) by {
        assert(k % 256 != l % 256) by (nonlinear_arith)
            requires
                index <= k < l < index + 4,
                index >= 0,
        ;
        let x = success_slot(k);
        let y = success_slot(l);
        assert(x[prefix.len() as int] != y[prefix.len() as int]);
    }
}

} // verus!
