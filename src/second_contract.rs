//! The middle contract of the three-contract promise fixtures: it calls the
//! first and the third contract, or its own caller, and records the replies.
use vstd::prelude::*;
use vstd::string::StringSliceAdditionalSpecFns;

use crate::host::{
    calls_view, one_call, two_calls, wrong_arguments_calls, wrong_number_of_arguments, Address,
    HostCall, HostCallView,
};
use crate::promises_common::{
    async_call_view, bytes_replies_calls, create_async_call, first_contract_address, named_address,
    store_bytes_replies, store_u64_replies, third_contract_address, u64_replies_calls, zero_value,
    GAS_100K, GAS_10M, GAS_500K, GAS_50M,
};

verus! {

pub const SUCCESS_CALLBACK_ARGUMENT_KEY: &'static str = "SuccessCallbackArg";
pub const FAIL_CALLBACK_ARGUMENT_KEY: &'static str = "FailCallbackArg";
pub const CURRENT_STORAGE_INDEX_KEY: &'static str = "CurrentStorageIndex";

pub const COMMON_GROUP_ID: &'static str = "testgroup";
pub const SUCCESS_CALLBACK_NAME: &'static str = "success_callback";
pub const FAIL_CALLBACK_NAME: &'static str = "fail_callback";

/// The host call that calls `destination` with `data` and no value, in the
/// common group, with both callbacks.
pub open spec fn contract_call(destination: Seq<u8>, data: Seq<u8>, gas: i64) -> HostCallView {
    async_call_view(
        COMMON_GROUP_ID.spec_bytes(),
        destination,
        zero_value(),
        data,
        SUCCESS_CALLBACK_NAME.spec_bytes(),
        FAIL_CALLBACK_NAME.spec_bytes(),
        gas,
    )
}

fn call_contract(destination: &Address, data: &[u8], gas: i64) -> (r: HostCall)
    ensures
        r@ == contract_call(destination@, data@, gas),
{
    let zero: [u8; 32] = [0; 32];
    assert(zero@ =~= zero_value());
    assert(zero@.take(32) =~= zero@);
    create_async_call(
        COMMON_GROUP_ID.as_bytes(),
        destination,
        zero.as_slice(),
        data,
        SUCCESS_CALLBACK_NAME.as_bytes(),
        FAIL_CALLBACK_NAME.as_bytes(),
        gas,
    )
}

/// Returns 42.
pub fn answer() -> (r: Vec<HostCall>)
    ensures
        calls_view(r@) == seq![HostCallView::FinishU64(42)],
{
    one_call(HostCall::FinishU64(42))
}

/// Calls `answer` on the contract that called this one.
pub fn call_caller(caller: Address) -> (r: Vec<HostCall>)
    ensures
        calls_view(r@) == seq![contract_call(caller@, "answer".spec_bytes(), GAS_50M)],
{
    one_call(call_contract(&caller, "answer".as_bytes(), GAS_50M))
}

/// Asks the first contract to call the third.
pub fn call_first_contract_to_call_third() -> (r: Vec<HostCall>)
    ensures
        calls_view(r@) == seq![
            contract_call(
                named_address("firstContract"),
                "call_third_contract".spec_bytes(),
                GAS_50M,
            ),
        ],
{
    let first = first_contract_address();
    one_call(call_contract(&first, "call_third_contract".as_bytes(), GAS_50M))
}

/// Calls the third contract with the call data given as the single argument.
pub fn call_third_contract(args: &Vec<Vec<u8>>) -> (r: Vec<HostCall>)
    ensures
        args@.len() == 1 ==> calls_view(r@) == seq![
            contract_call(named_address("thirdContract"), args@[0]@, GAS_100K),
        ],
        args@.len() != 1 ==> calls_view(r@) == wrong_arguments_calls(),
{
    if args.len() != 1 {
        return wrong_number_of_arguments();
    }
    let third = third_contract_address();
    one_call(call_contract(&third, args[0].as_slice(), GAS_100K))
}

/// Calls `answer` on the third contract twice.
pub fn call_third_contract_twice_simple() -> (r: Vec<HostCall>)
    ensures
        calls_view(r@) == seq![
            contract_call(named_address("thirdContract"), "answer".spec_bytes(), GAS_500K),
            contract_call(named_address("thirdContract"), "answer".spec_bytes(), GAS_500K),
        ],
{
    let third = third_contract_address();
    let first_call = call_contract(&third, "answer".as_bytes(), GAS_500K);
    let second_call = call_contract(&third, "answer".as_bytes(), GAS_500K);
    two_calls(first_call, second_call)
}

/// Asks the third contract to call the first, then calls its `answer`.
pub fn call_third_contract_twice_complex() -> (r: Vec<HostCall>)
    ensures
        calls_view(r@) == seq![
            contract_call(
                named_address("thirdContract"),
                "call_first_contract".spec_bytes(),
                GAS_10M,
            ),
            contract_call(named_address("thirdContract"), "answer".spec_bytes(), GAS_500K),
        ],
{
    let third = third_contract_address();
    let first_call = call_contract(&third, "call_first_contract".as_bytes(), GAS_10M);
    let second_call = call_contract(&third, "answer".as_bytes(), GAS_500K);
    two_calls(first_call, second_call)
}

/// Calls the first contract with the first argument as call data and the
/// third contract with the second.
pub fn call_first_and_third_contract(args: &Vec<Vec<u8>>) -> (r: Vec<HostCall>)
    ensures
        args@.len() == 2 ==> calls_view(r@) == seq![
            contract_call(named_address("firstContract"), args@[0]@, GAS_100K),
            contract_call(named_address("thirdContract"), args@[1]@, GAS_100K),
        ],
        args@.len() != 2 ==> calls_view(r@) == wrong_arguments_calls(),
{
    if args.len() != 2 {
        return wrong_number_of_arguments();
    }
    let first = first_contract_address();
    let third = third_contract_address();
    let first_call = call_contract(&first, args[0].as_slice(), GAS_100K);
    let second_call = call_contract(&third, args[1].as_slice(), GAS_100K);
    two_calls(first_call, second_call)
}

/// Success callback. Given the index stored under `CurrentStorageIndex`, it
/// stores each of its arguments, however many, in the next free slot under
/// `SuccessCallbackArg`, then the new index.
pub fn success_callback(storage_index: u64, args: &Vec<u64>) -> (r: Vec<HostCall>)
    requires
        storage_index + args@.len() <= u64::MAX,
    ensures
        calls_view(r@) == u64_replies_calls(
            SUCCESS_CALLBACK_ARGUMENT_KEY.spec_bytes(),
            CURRENT_STORAGE_INDEX_KEY.spec_bytes(),
            storage_index,
            args@,
        ),
{
    store_u64_replies(
        SUCCESS_CALLBACK_ARGUMENT_KEY.as_bytes(),
        CURRENT_STORAGE_INDEX_KEY.as_bytes(),
        storage_index,
        args,
    )
}

/// Error callback. Its two arguments are the error code and the error
/// message. Given the index stored under `CurrentStorageIndex`, it stores each
/// argument in the next free slot under `FailCallbackArg`, then the new index.
pub fn fail_callback(storage_index: u64, args: &Vec<Vec<u8>>) -> (r: Vec<HostCall>)
    requires
        args@.len() == 2 ==> storage_index + 2 <= u64::MAX,
    ensures
        args@.len() == 2 ==> calls_view(r@) == bytes_replies_calls(
            FAIL_CALLBACK_ARGUMENT_KEY.spec_bytes(),
            CURRENT_STORAGE_INDEX_KEY.spec_bytes(),
            storage_index,
            args@.map_values(|a: Vec<u8>| a@),
        ),
        args@.len() != 2 ==> calls_view(r@) == wrong_arguments_calls(),
{
    let expected_num_args: usize = 2;
    if args.len() != expected_num_args {
        return wrong_number_of_arguments();
    }
    store_bytes_replies(
        FAIL_CALLBACK_ARGUMENT_KEY.as_bytes(),
        CURRENT_STORAGE_INDEX_KEY.as_bytes(),
        storage_index,
        args,
    )
}

} // verus!
