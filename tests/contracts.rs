use eei_contracts::async_context;
use eei_contracts::blockchain_hooks::finish_low_byte;
use eei_contracts::child_simple;
use eei_contracts::exec_dest_ctx::{
    call_child, get_slices_lengths, give, join_small_slices, prepare_dest_context_call,
};
use eei_contracts::host::{fixture_address, Address, AsyncCall, HostCall};
use eei_contracts::parent_simple;
use eei_contracts::promises_common::{construct_storage_key, create_async_call};
use eei_contracts::rawrs;
use eei_contracts::second_contract;

const CHILD: [u8; 32] = [
    0x00, 0x00, 0x00, 0x00, 0x00, 0x00, 0x00, 0x00, 0x0F, 0x0F, b'c', b'h', b'i', b'l', b'd', b'S',
    b'C', b'.', b'.', b'.', b'.', b'.', b'.', b'.', b'.', b'.', b'.', b'.', b'.', b'.', b'.', b'.',
];
const THIRD: [u8; 32] = [
    0x00, 0x00, 0x00, 0x00, 0x00, 0x00, 0x00, 0x00, 0x0F, 0x0F, b't', b'h', b'i', b'r', b'd', b'C',
    b'o', b'n', b't', b'r', b'a', b'c', b't', b'.', b'.', b'.', b'.', b'.', b'.', b'.', b'.', b'.',
];
const FIRST: [u8; 32] = [
    0x00, 0x00, 0x00, 0x00, 0x00, 0x00, 0x00, 0x00, 0x0F, 0x0F, b'f', b'i', b'r', b's', b't', b'C',
    b'o', b'n', b't', b'r', b'a', b'c', b't', b'.', b'.', b'.', b'.', b'.', b'.', b'.', b'.', b'.',
];

fn async_call(
    destination: [u8; 32],
    value: Vec<u8>,
    data: &[u8],
    success: &[u8],
    error: &[u8],
    gas: i64,
) -> HostCall {
    HostCall::CreateAsyncCall(AsyncCall {
        group_id: b"testgroup".to_vec(),
        destination: Address { bytes: destination },
        value,
        data: data.to_vec(),
        success_callback: success.to_vec(),
        error_callback: error.to_vec(),
        gas,
    })
}

fn store_u64(key: &[u8], value: u64) -> HostCall {
    HostCall::StoreU64 { key: key.to_vec(), value }
}

fn wrong_count() -> Vec<HostCall> {
    vec![HostCall::SignalError(b"wrong number of arguments".to_vec())]
}

#[test]
fn answer_returns_42() {
    assert_eq!(child_simple::answer(), vec![HostCall::FinishU64(42)]);
    assert_eq!(second_contract::answer(), vec![HostCall::FinishU64(42)]);
}

#[test]
fn answer_wrong_returns_24() {
    assert_eq!(child_simple::answer_wrong(), vec![HostCall::FinishU64(24)]);
}

#[test]
fn echo_returns_its_argument() {
    assert_eq!(child_simple::echo(&vec![7]), vec![HostCall::FinishU64(7)]);
    assert_eq!(child_simple::echo(&vec![u64::MAX]), vec![HostCall::FinishU64(u64::MAX)]);
}

#[test]
fn echo_rejects_a_wrong_argument_count() {
    assert_eq!(child_simple::echo(&vec![]), wrong_count());
    assert_eq!(child_simple::echo(&vec![1, 2]), wrong_count());
}

#[test]
fn fail_signals_error_and_never_finishes() {
    let calls = child_simple::fail();
    assert_eq!(calls, vec![HostCall::SignalError(b"fail".to_vec())]);
    assert!(!calls.iter().any(|c| matches!(
        c,
        HostCall::FinishU64(_) | HostCall::FinishI64(_) | HostCall::FinishBytes(_)
    )));
}

#[test]
fn construct_storage_key_concatenates() {
    let parts: [&[u8]; 2] = [b"A", b"B"];
    assert_eq!(construct_storage_key(&parts), b"AB".to_vec());
    let none: [&[u8]; 0] = [];
    assert_eq!(construct_storage_key(&none), Vec::<u8>::new());
    let mixed: [&[u8]; 3] = [b"Key", b"", &[7]];
    assert_eq!(construct_storage_key(&mixed), b"Key\x07".to_vec());
}

#[test]
fn sequential_success_callbacks_use_distinct_slots() {
    let first = parent_simple::success_callback_one_arg(0, &vec![0, 1]);
    assert_eq!(
        first,
        vec![
            store_u64(b"SuccessCallbackArg\x00", 0),
            store_u64(b"SuccessCallbackArg\x01", 1),
            store_u64(b"CurrentStorageIndex", 2),
        ]
    );
    let second = parent_simple::success_callback_one_arg(2, &vec![0, 2]);
    assert_eq!(
        second,
        vec![
            store_u64(b"SuccessCallbackArg\x02", 0),
            store_u64(b"SuccessCallbackArg\x03", 2),
            store_u64(b"CurrentStorageIndex", 4),
        ]
    );
}

#[test]
fn success_callback_slots_wrap_at_the_low_byte() {
    let calls = parent_simple::success_callback_one_arg(255, &vec![9, 8]);
    assert_eq!(
        calls,
        vec![
            store_u64(b"SuccessCallbackArg\xff", 9),
            store_u64(b"SuccessCallbackArg\x00", 8),
            store_u64(b"CurrentStorageIndex", 257),
        ]
    );
}

#[test]
fn success_callback_one_arg_rejects_a_wrong_argument_count() {
    assert_eq!(parent_simple::success_callback_one_arg(0, &vec![1]), wrong_count());
}

#[test]
fn fail_callback_stores_code_and_message() {
    let calls = parent_simple::fail_callback(3, &vec![vec![4], b"error".to_vec()]);
    assert_eq!(
        calls,
        vec![
            HostCall::StoreBytes { key: b"FailCallbackArg\x03".to_vec(), bytes: vec![4] },
            HostCall::StoreBytes { key: b"FailCallbackArg\x04".to_vec(), bytes: b"error".to_vec() },
            store_u64(b"CurrentStorageIndex", 5),
        ]
    );
    assert_eq!(parent_simple::fail_callback(3, &vec![]), wrong_count());
    assert_eq!(second_contract::fail_callback(0, &vec![vec![1]]), wrong_count());
}

#[test]
fn second_contract_success_callback_stores_every_argument() {
    let calls = second_contract::success_callback(1, &vec![42, 43, 44]);
    assert_eq!(
        calls,
        vec![
            store_u64(b"SuccessCallbackArg\x01", 42),
            store_u64(b"SuccessCallbackArg\x02", 43),
            store_u64(b"SuccessCallbackArg\x03", 44),
            store_u64(b"CurrentStorageIndex", 4),
        ]
    );
    assert_eq!(
        second_contract::success_callback(6, &vec![]),
        vec![store_u64(b"CurrentStorageIndex", 6)]
    );
}

#[test]
fn fixture_addresses_pad_the_name() {
    assert_eq!(fixture_address("childSC"), Address { bytes: CHILD });
    assert_eq!(fixture_address("thirdContract"), Address { bytes: THIRD });
}

#[test]
fn no_async_returns_42() {
    assert_eq!(parent_simple::no_async(), vec![HostCall::FinishI64(42)]);
    assert_eq!(async_context::no_async(), vec![HostCall::FinishI64(42)]);
    assert_eq!(async_context::one_async_call_no_cb(), vec![]);
}

#[test]
fn rawrs_method_returns_4() {
    assert_eq!(rawrs::method(), vec![HostCall::FinishI64(4)]);
}

#[test]
fn one_async_call_with_call_value_sends_16() {
    let mut value = vec![0u8; 32];
    value[31] = 16;
    assert_eq!(
        parent_simple::one_async_call_no_cb_with_call_value(),
        vec![async_call(CHILD, value, b"answer", b"", b"", 100000)]
    );
}

#[test]
fn one_async_call_callbacks() {
    assert_eq!(
        parent_simple::one_async_call_success_cb(),
        vec![async_call(CHILD, vec![0; 32], b"answer", b"success_callback_one_arg", b"", 100000)]
    );
    assert_eq!(
        parent_simple::one_async_call_fail_cb(),
        vec![async_call(CHILD, vec![0; 32], b"fail", b"", b"fail_callback", 100000)]
    );
    assert_eq!(
        parent_simple::one_async_call_no_cb_fail(),
        vec![async_call(CHILD, vec![0; 32], b"fail", b"", b"", 100000)]
    );
}

#[test]
fn two_async_calls_share_the_callbacks() {
    let s: &[u8] = b"success_callback_one_arg";
    let f: &[u8] = b"fail_callback";
    assert_eq!(
        parent_simple::two_async_same_cb_success_both(),
        vec![
            async_call(CHILD, vec![0; 32], b"echo@01", s, f, 10000000),
            async_call(CHILD, vec![0; 32], b"echo@02", s, f, 10000000),
        ]
    );
    assert_eq!(
        parent_simple::two_async_same_cb_fail_first_success_second(),
        vec![
            async_call(CHILD, vec![0; 32], b"fail", s, f, 100000000),
            async_call(CHILD, vec![0; 32], b"echo@02", s, f, 100000000),
        ]
    );
    assert_eq!(
        parent_simple::two_async_same_cb_fail_both(),
        vec![
            async_call(CHILD, vec![0; 32], b"fail", b"", f, 100000),
            async_call(CHILD, vec![0; 32], b"fail", b"", f, 100000),
        ]
    );
}

#[test]
fn second_contract_calls() {
    let s: &[u8] = b"success_callback";
    let f: &[u8] = b"fail_callback";
    let caller = Address { bytes: [9; 32] };
    assert_eq!(
        second_contract::call_caller(caller),
        vec![async_call([9; 32], vec![0; 32], b"answer", s, f, 50000000)]
    );
    assert_eq!(
        second_contract::call_first_contract_to_call_third(),
        vec![async_call(FIRST, vec![0; 32], b"call_third_contract", s, f, 50000000)]
    );
    assert_eq!(
        second_contract::call_third_contract(&vec![b"echo@05".to_vec()]),
        vec![async_call(THIRD, vec![0; 32], b"echo@05", s, f, 100000)]
    );
    assert_eq!(second_contract::call_third_contract(&vec![]), wrong_count());
    assert_eq!(
        second_contract::call_first_and_third_contract(&vec![b"a".to_vec(), b"b".to_vec()]),
        vec![
            async_call(FIRST, vec![0; 32], b"a", s, f, 100000),
            async_call(THIRD, vec![0; 32], b"b", s, f, 100000),
        ]
    );
    assert_eq!(
        second_contract::call_third_contract_twice_complex(),
        vec![
            async_call(THIRD, vec![0; 32], b"call_first_contract", s, f, 10000000),
            async_call(THIRD, vec![0; 32], b"answer", s, f, 500000),
        ]
    );
    assert_eq!(
        second_contract::call_third_contract_twice_simple(),
        vec![
            async_call(THIRD, vec![0; 32], b"answer", s, f, 500000),
            async_call(THIRD, vec![0; 32], b"answer", s, f, 500000),
        ]
    );
}

#[test]
fn create_async_call_keeps_its_parameters() {
    let dest = Address { bytes: [1; 32] };
    let call = create_async_call(b"g", &dest, &[2; 32], b"data", b"ok", b"err", 77);
    assert_eq!(
        call,
        HostCall::CreateAsyncCall(AsyncCall {
            group_id: b"g".to_vec(),
            destination: dest,
            value: vec![2; 32],
            data: b"data".to_vec(),
            success_callback: b"ok".to_vec(),
            error_callback: b"err".to_vec(),
            gas: 77,
        })
    );
}

#[test]
fn create_async_call_reads_the_first_32_value_bytes() {
    let dest = Address { bytes: [1; 32] };
    let mut value = vec![2u8; 40];
    value[32] = 9;
    match create_async_call(b"g", &dest, &value, b"", b"", b"", 1) {
        HostCall::CreateAsyncCall(c) => assert_eq!(c.value, vec![2; 32]),
        other => panic!("unexpected call {:?}", other),
    }
}

#[test]
fn prepare_dest_context_call_reads_32_bytes_of_address_and_value() {
    let args: [&[u8]; 0] = [];
    let call = prepare_dest_context_call(&[3; 35], &[4; 33], "f", &args, 5);
    assert_eq!(call.address, vec![3; 32]);
    assert_eq!(call.value, vec![4; 32]);
    assert_eq!(call.num_arguments, 0);
}

#[test]
fn callbacks_abort_on_a_wrong_count_at_any_index() {
    assert_eq!(parent_simple::success_callback_one_arg(u64::MAX, &vec![1]), wrong_count());
    assert_eq!(parent_simple::fail_callback(u64::MAX, &vec![]), wrong_count());
    assert_eq!(second_contract::fail_callback(u64::MAX, &vec![vec![1]]), wrong_count());
}

#[test]
fn join_small_slices_packs_and_pads() {
    let slices: [&[u8]; 3] = [&[1, 2], &[], &[3]];
    let buffer = join_small_slices(&slices);
    assert_eq!(&buffer[..4], &[1, 2, 3, 0]);
    assert!(buffer[3..].iter().all(|b| *b == 0));
    let full = [5u8; 256];
    let one: [&[u8]; 1] = [&full];
    assert_eq!(join_small_slices(&one), full);
}

#[test]
fn get_slices_lengths_lists_each_length() {
    let slices: [&[u8]; 3] = [&[1, 2], &[], &[3]];
    let lengths = get_slices_lengths(&slices);
    assert_eq!(&lengths[..4], &[2, 0, 1, 0]);
    assert!(lengths[3..].iter().all(|l| *l == 0));
}

#[test]
fn call_child_gives_42() {
    let calls = call_child();
    assert_eq!(calls.len(), 2);
    match &calls[0] {
        HostCall::ExecuteOnDestContextByCaller(c) => {
            assert_eq!(c.gas, 800000);
            assert_eq!(c.address, CHILD.to_vec());
            assert_eq!(c.value, vec![0; 32]);
            assert_eq!(c.function, b"give".to_vec());
            assert_eq!(c.num_arguments, 1);
            assert_eq!(c.argument_lengths[0], 1);
            assert_eq!(c.argument_data[0], 42);
            assert_eq!(c.argument_data[1], 0);
        }
        other => panic!("unexpected call {:?}", other),
    }
    assert_eq!(calls[1], HostCall::FinishBytes(b"child called".to_vec()));
}

#[test]
fn prepare_dest_context_call_counts_arguments() {
    let args: [&[u8]; 2] = [b"ab", b"c"];
    let call = prepare_dest_context_call(&[3; 32], &[0; 32], "f", &args, 5);
    assert_eq!(call.num_arguments, 2);
    assert_eq!(&call.argument_lengths[..3], &[2, 1, 0]);
    assert_eq!(&call.argument_data[..4], b"abc\0");
}

#[test]
fn give_sends_back_to_the_caller() {
    let caller = Address { bytes: [4; 32] };
    assert_eq!(
        give(42, caller),
        vec![
            HostCall::SendTx { to: caller, amount: 42, message: vec![] },
            HostCall::FinishBytes(b"sent".to_vec()),
        ]
    );
}

#[test]
fn finish_low_byte_keeps_the_low_byte() {
    assert_eq!(finish_low_byte(0x1234), vec![HostCall::FinishBytes(vec![0x34])]);
    assert_eq!(finish_low_byte(-1), vec![HostCall::FinishBytes(vec![0xff])]);
    assert_eq!(finish_low_byte(6000), vec![HostCall::FinishBytes(vec![112])]);
}
