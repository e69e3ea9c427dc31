//! Items shared by the promise fixtures: storage keys and well-known addresses.
use vstd::prelude::*;
use vstd::seq_lib::lemma_flatten_concat;
use vstd::slice::{slice_subrange, slice_to_vec};
use vstd::string::StringSliceAdditionalSpecFns;

use crate::host::{
    calls_view, fixture_address, fixture_address_bytes, Address, AsyncCallView, AsyncCall, HostCall,
    HostCallView,
};

verus! {

broadcast use vstd::string::group_string_axioms;

pub const GAS_100K: i64 = 100000;
pub const GAS_500K: i64 = 500000;
pub const GAS_5M: i64 = 5000000;
pub const GAS_10M: i64 = 10000000;
pub const GAS_50M: i64 = 50000000;
pub const GAS_100M: i64 = 100000000;

/// The address of the test contract called `name`.
pub open spec fn named_address(name: &str) -> Seq<u8> {
    fixture_address_bytes(name.spec_bytes())
}

pub fn child_address() -> (r: Address)
    ensures
        r@ == named_address("childSC"),
{
    proof {
        reveal_strlit("childSC");
        assert(vstd::string::is_ascii("childSC"));
    }
    fixture_address("childSC")
}

pub fn first_contract_address() -> (r: Address)
    ensures
        r@ == named_address("firstContract"),
{
    proof {
        reveal_strlit("firstContract");
        assert(vstd::string::is_ascii("firstContract"));
    }
    fixture_address("firstContract")
}

pub fn third_contract_address() -> (r: Address)
    ensures
        r@ == named_address("thirdContract"),
{
    proof {
        reveal_strlit("thirdContract");
        assert(vstd::string::is_ascii("thirdContract"));
    }
    fixture_address("thirdContract")
}

/// The 32-byte encoding of a zero value.
pub open spec fn zero_value() -> Seq<u8> {
    Seq::new(32, |i: int| 0u8)
}

/// The host call that starts an asynchronous call with these parameters.
pub open spec fn async_call_view(
    group_id: Seq<u8>,
    destination: Seq<u8>,
    value: Seq<u8>,
    data: Seq<u8>,
    success_callback: Seq<u8>,
    error_callback: Seq<u8>,
    gas: i64,
) -> HostCallView {
    HostCallView::CreateAsyncCall(
        AsyncCallView { group_id, destination, value, data, success_callback, error_callback, gas },
    )
}

/// Asks the host to call `destination` with `data` and `value` within group
/// `group_id`, and to run the named callbacks (none where a name is empty) on
/// the reply. The host reads the value as the first 32 bytes of `value`.
pub fn create_async_call(
    group_id: &[u8],
    destination: &Address,
    value: &[u8],
    data: &[u8],
    success_callback_name: &[u8],
    error_callback_name: &[u8],
    gas: i64,
) -> (r: HostCall)
    requires
        value@.len() >= 32,
    ensures
        r@ == async_call_view(
            group_id@,
            destination@,
            value@.take(32),
            data@,
            success_callback_name@,
            error_callback_name@,
            gas,
        ),
{
    assert(value@.subrange(0, 32) =~= value@.take(32));
    HostCall::CreateAsyncCall(
        AsyncCall {
            group_id: slice_to_vec(group_id),
            destination: *destination,
            value: slice_to_vec(slice_subrange(value, 0, 32)),
            data: slice_to_vec(data),
            success_callback: slice_to_vec(success_callback_name),
            error_callback: slice_to_vec(error_callback_name),
            gas,
        },
    )
}

/// The bytes of a storage key made of `parts`, in order.
pub open spec fn joined_parts(parts: Seq<&[u8]>) -> Seq<u8> {
    parts.map_values(|p: &[u8]| p@).flatten()
}

/// Joining the first `i + 1` parts appends part `i` to the join of the first `i`.
pub proof fn lemma_joined_step(parts: Seq<&[u8]>, i: int)
    requires
        0 <= i < parts.len(),
    ensures
        joined_parts(parts.subrange(0, i + 1)) == joined_parts(parts.subrange(0, i)) + parts[i]@,
{
    let before = parts.subrange(0, i);
    assert(parts.subrange(0, i + 1) =~= before.push(parts[i]));
    assert(parts.subrange(0, i + 1).map_values(|p: &[u8]| p@) =~= before.map_values(
        |p: &[u8]| p@,
    ).push(parts[i]@));
    before.map_values(|p: &[u8]| p@).lemma_flatten_push(parts[i]@);
}

/// The join of all parts is the join of the first `i` followed by the join of the rest.
pub proof fn lemma_joined_split(parts: Seq<&[u8]>, i: int)
    requires
        0 <= i <= parts.len(),
    ensures
        joined_parts(parts) == joined_parts(parts.subrange(0, i)) + joined_parts(
            parts.subrange(i, parts.len() as int),
        ),
{
    let f = |p: &[u8]| p@;
    let x = parts.subrange(0, i).map_values(f);
    let y = parts.subrange(i, parts.len() as int).map_values(f);
    assert(parts.map_values(f) =~= x + y);
    lemma_flatten_concat(x, y);
}

/// No part is longer than the join of all of them.
pub proof fn lemma_part_within_joined(parts: Seq<&[u8]>, i: int)
    requires
        0 <= i < parts.len(),
    ensures
        parts[i]@.len() <= joined_parts(parts).len(),
        joined_parts(parts.subrange(0, i)).len() + parts[i]@.len() <= joined_parts(parts).len(),
{
    lemma_joined_split(parts, i + 1);
    lemma_joined_step(parts, i);
}

/// Builds a storage key by concatenating `key_parts`.
pub fn construct_storage_key(key_parts: &[&[u8]]) -> (key: Vec<u8>)
    ensures
        key@ == joined_parts(key_parts@),
{
    let mut key: Vec<u8> = Vec::new();
    let n = key_parts.len();
    for i in 0..n
        invariant
            n == key_parts@.len(),
            key@ == joined_parts(key_parts@.subrange(0, i as int)),
    {
        let part: &[u8] = key_parts[i];
        key.extend_from_slice(part);
        proof {
            lemma_joined_step(key_parts@, i as int);
            assert(key@ =~= joined_parts(key_parts@.subrange(0, i as int)) + part@);
        }
    }
    assert(key_parts@.subrange(0, n as int) =~= key_parts@);
    key
}

/// The join of two parts is the first followed by the second.
pub proof fn lemma_joined_pair(a: &[u8], b: &[u8])
    ensures
        joined_parts(seq![a, b]) == a@ + b@,
{
    let parts = seq![a, b];
    lemma_joined_step(parts, 0);
    lemma_joined_step(parts, 1);
    assert(parts.subrange(0, 0).map_values(|p: &[u8]| p@) =~= Seq::<Seq<u8>>::empty());
    assert(parts.subrange(0, 2) =~= parts);
    assert(joined_parts(parts.subrange(0, 0)) =~= Seq::<u8>::empty());
    assert(joined_parts(parts) =~= a@ + b@);
}

/// The key of storage slot `index` under `prefix`: the prefix followed by the
/// low byte of the index.
pub open spec fn slot_key(prefix: Seq<u8>, index: int) -> Seq<u8> {
    prefix.push((index % 256) as u8)
}

/// Stores each argument in its own slot under `prefix`, counting up from
/// `index`, then stores the next free index under `index_key`.
pub open spec fn u64_replies_calls(
    prefix: Seq<u8>,
    index_key: Seq<u8>,
    index: u64,
    args: Seq<u64>,
) -> Seq<HostCallView> {
    Seq::new(
        args.len(),
        |i: int| HostCallView::StoreU64 { key: slot_key(prefix, index + i), value: args[i] },
    ).push(HostCallView::StoreU64 { key: index_key, value: (index + args.len()) as u64 })
}

/// As `u64_replies_calls`, for arguments kept as bytes.
pub open spec fn bytes_replies_calls(
    prefix: Seq<u8>,
    index_key: Seq<u8>,
    index: u64,
    args: Seq<Seq<u8>>,
) -> Seq<HostCallView> {
    Seq::new(
        args.len(),
        |i: int| HostCallView::StoreBytes { key: slot_key(prefix, index + i), bytes: args[i] },
    ).push(HostCallView::StoreU64 { key: index_key, value: (index + args.len()) as u64 })
}

/// The key of slot `index` under `prefix`.
pub fn slot_storage_key(prefix: &[u8], index: u64) -> (key: Vec<u8>)
    ensures
        key@ == slot_key(prefix@, index as int),
{
    let index_byte: [u8; 1] = [(index % 256) as u8];
    let index_slice: &[u8] = index_byte.as_slice();
    let parts: [&[u8]; 2] = [prefix, index_slice];
    let key = construct_storage_key(parts.as_slice());
    proof {
        assert(parts@ =~= seq![prefix, index_slice]);
        lemma_joined_pair(prefix, index_slice);
        assert(index_slice@ =~= seq![(index % 256) as u8]);
        assert(key@ =~= slot_key(prefix@, index as int));
    }
    key
}

/// Stores each argument in its own slot under `prefix`, counting up from
/// `storage_index`, then stores the next free index under `index_key`.
pub fn store_u64_replies(
    prefix: &[u8],
    index_key: &[u8],
    storage_index: u64,
    args: &Vec<u64>,
) -> (r: Vec<HostCall>)
    requires
        storage_index + args@.len() <= u64::MAX,
    ensures
        calls_view(r@) == u64_replies_calls(prefix@, index_key@, storage_index, args@),
{
    let mut calls: Vec<HostCall> = Vec::new();
    let mut index: u64 = storage_index;
    let n = args.len();
    for arg_index in 0..n
        invariant
            n == args@.len(),
            storage_index + n <= u64::MAX,
            index == storage_index + arg_index,
            calls_view(calls@) == u64_replies_calls(prefix@, index_key@, storage_index, args@).subrange(
                0,
                arg_index as int,
            ),
    {
        let arg = args[arg_index];
        let key = slot_storage_key(prefix, index);
        index += 1;
        let ghost before = calls@;
        let call = HostCall::StoreU64 { key, value: arg };
        calls.push(call);
        proof {
            let target = u64_replies_calls(prefix@, index_key@, storage_index, args@);
            assert(calls_view(calls@) =~= calls_view(before).push(call@));
            assert(target.subrange(0, arg_index + 1) =~= target.subrange(0, arg_index as int).push(
                target[arg_index as int],
            ));
        }
    }
    let ghost before = calls@;
    let last = HostCall::StoreU64 { key: slice_to_vec(index_key), value: index };
    calls.push(last);
    proof {
        let target = u64_replies_calls(prefix@, index_key@, storage_index, args@);
        assert(calls_view(calls@) =~= calls_view(before).push(last@));
        assert(target =~= target.subrange(0, n as int).push(target[n as int]));
    }
    calls
}

/// As `store_u64_replies`, for arguments kept as bytes.
pub fn store_bytes_replies(
    prefix: &[u8],
    index_key: &[u8],
    storage_index: u64,
    args: &Vec<Vec<u8>>,
) -> (r: Vec<HostCall>)
    requires
        storage_index + args@.len() <= u64::MAX,
    ensures
        calls_view(r@) == bytes_replies_calls(
            prefix@,
            index_key@,
            storage_index,
            args@.map_values(|a: Vec<u8>| a@),
        ),
{
    let ghost views = args@.map_values(|a: Vec<u8>| a@);
    let mut calls: Vec<HostCall> = Vec::new();
    let mut index: u64 = storage_index;
    let n = args.len();
    for arg_index in 0..n
        invariant
            n == args@.len(),
            views == args@.map_values(|a: Vec<u8>| a@),
            storage_index + n <= u64::MAX,
            index == storage_index + arg_index,
            calls_view(calls@) == bytes_replies_calls(prefix@, index_key@, storage_index, views).subrange(
                0,
                arg_index as int,
            ),
    {
        let arg = slice_to_vec(args[arg_index].as_slice());
        let key = slot_storage_key(prefix, index);
        index += 1;
        let ghost before = calls@;
        let call = HostCall::StoreBytes { key, bytes: arg };
        calls.push(call);
        proof {
            let target = bytes_replies_calls(prefix@, index_key@, storage_index, views);
            assert(calls_view(calls@) =~= calls_view(before).push(call@));
            assert(target.subrange(0, arg_index + 1) =~= target.subrange(0, arg_index as int).push(
                target[arg_index as int],
            ));
        }
    }
    let ghost before = calls@;
    let last = HostCall::StoreU64 { key: slice_to_vec(index_key), value: index };
    calls.push(last);
    proof {
        let target = bytes_replies_calls(prefix@, index_key@, storage_index, views);
        assert(calls_view(calls@) =~= calls_view(before).push(last@));
        assert(target =~= target.subrange(0, n as int).push(target[n as int]));
    }
    calls
}

} // verus!
