//! The fixture pair in which a parent runs a child in the caller's context.
use vstd::prelude::*;
use vstd::slice::{slice_subrange, slice_to_vec};
use vstd::string::StrSliceExecFns;
use vstd::string::StringSliceAdditionalSpecFns;

use crate::host::{calls_view, fixture_address, fixture_address_bytes, Address, HostCall, HostCallView};
use crate::promises_common::{joined_parts, lemma_joined_step, lemma_part_within_joined};

verus! {

broadcast use vstd::string::group_string_axioms;

/// The capacity of the buffers handed to the host for the call's arguments.
pub const ALLOCSIZE: usize = 256;

/// `data` followed by zero bytes up to the buffer capacity.
pub open spec fn padded(data: Seq<u8>) -> Seq<u8> {
    data + Seq::new((ALLOCSIZE - data.len()) as nat, |i: int| 0u8)
}

/// The length of each slice, then zeros up to the buffer capacity.
pub open spec fn padded_lengths(slices: Seq<Seq<u8>>) -> Seq<i32> {
    Seq::new(
        ALLOCSIZE as nat,
        |k: int|
            if k < slices.len() {
                slices[k].len() as i32
            } else {
                0i32
            },
    )
}

/// The views of a sequence of slices.
pub open spec fn slices_view(slices: Seq<&[u8]>) -> Seq<Seq<u8>> {
    slices.map_values(|p: &[u8]| p@)
}

/// Copies the slices one after the other into a buffer of `ALLOCSIZE` bytes.
pub fn join_small_slices(slices: &[&[u8]]) -> (buffer: [u8; 256])
    requires
        joined_parts(slices@).len() <= ALLOCSIZE,
    ensures
        buffer@ == padded(joined_parts(slices@)),
{
    let mut buffer: [u8; 256] = [0; 256];
    let mut offset: usize = 0;
    let n = slices.len();
    for i in 0..n
        invariant
            n == slices@.len(),
            joined_parts(slices@).len() <= ALLOCSIZE,
            offset == joined_parts(slices@.subrange(0, i as int)).len(),
            buffer@.len() == ALLOCSIZE,
            buffer@.subrange(0, offset as int) == joined_parts(slices@.subrange(0, i as int)),
            forall|k: int| offset <= k < ALLOCSIZE ==> buffer@[k] == 0,
    {
        let slice: &[u8] = slices[i];
        proof {
            lemma_part_within_joined(slices@, i as int);
            lemma_joined_step(slices@, i as int);
        }
        let ghost start = offset as int;
        let ghost prefix = joined_parts(slices@.subrange(0, i as int));
        let m = slice.len();
        for j in 0..m
            invariant
                m == slice@.len(),
                offset == start + j,
                start + m <= ALLOCSIZE,
                buffer@.len() == ALLOCSIZE,
                buffer@.subrange(0, offset as int) == prefix + slice@.subrange(0, j as int),
                forall|k: int| offset <= k < ALLOCSIZE ==> buffer@[k] == 0,
        {
            let ghost old_buffer = buffer@;
            buffer[offset] = slice[j];
            offset += 1;
            assert(buffer@.subrange(0, offset as int) =~= old_buffer.subrange(
                0,
                offset - 1,
            ).push(slice@[j as int]));
            assert(slice@.subrange(0, j + 1) =~= slice@.subrange(0, j as int).push(slice@[j as int]));
        }
        assert(slice@.subrange(0, m as int) =~= slice@);
    }
    assert(slices@.subrange(0, n as int) =~= slices@);
    assert(buffer@ =~= padded(joined_parts(slices@))) by {
        assert(buffer@ =~= buffer@.subrange(0, offset as int) + buffer@.subrange(
            offset as int,
            ALLOCSIZE as int,
        ));
    }
    buffer
}

/// The length of each slice, in a buffer of `ALLOCSIZE` entries.
pub fn get_slices_lengths(slices: &[&[u8]]) -> (lengths: [i32; 256])
    requires
        slices@.len() <= ALLOCSIZE,
        forall|k: int| 0 <= k < slices@.len() ==> (#[trigger] slices@[k])@.len() <= i32::MAX,
    ensures
        lengths@ == padded_lengths(slices_view(slices@)),
{
    let mut lengths: [i32; 256] = [0; 256];
    let n = slices.len();
    for i in 0..n
        invariant
            n == slices@.len(),
            n <= ALLOCSIZE,
            forall|k: int| 0 <= k < slices@.len() ==> (#[trigger] slices@[k])@.len() <= i32::MAX,
            lengths@.len() == ALLOCSIZE,
            forall|k: int|
                0 <= k < ALLOCSIZE ==> #[trigger] lengths@[k] == if k < i {
                    slices@[k]@.len() as i32
                } else {
                    0i32
                },
    {
        let len = slices[i].len();
        assert(slices@[i as int]@.len() <= i32::MAX);
        lengths[i] = len as i32;
    }
    assert(lengths@ =~= padded_lengths(slices_view(slices@)));
    lengths
}

/// A request for the host to run `function` of the contract at `address` in
/// the caller's context.
#[derive(Clone, Debug, PartialEq, Eq)]
pub struct DestContextCall {
    pub gas: i64,
    pub address: Vec<u8>,
    /// The value sent along, as 32 big-endian bytes.
    pub value: Vec<u8>,
    pub function: Vec<u8>,
    pub num_arguments: i32,
    pub argument_lengths: [i32; 256],
    pub argument_data: [u8; 256],
}

pub struct DestContextCallView {
    pub gas: i64,
    pub address: Seq<u8>,
    pub value: Seq<u8>,
    pub function: Seq<u8>,
    pub num_arguments: i32,
    pub argument_lengths: Seq<i32>,
    pub argument_data: Seq<u8>,
}

impl View for DestContextCall {
    type V = DestContextCallView;

    open spec fn view(&self) -> DestContextCallView {
        DestContextCallView {
            gas: self.gas,
            address: self.address@,
            value: self.value@,
            function: self.function@,
            num_arguments: self.num_arguments,
            argument_lengths: self.argument_lengths@,
            argument_data: self.argument_data@,
        }
    }
}

/// The call that runs `function` on `address` with `arguments` packed into
/// the host's buffers.
pub open spec fn dest_context_call_view(
    address: Seq<u8>,
    value: Seq<u8>,
    function: Seq<u8>,
    arguments: Seq<Seq<u8>>,
    gas: i64,
) -> DestContextCallView {
    DestContextCallView {
        gas,
        address,
        value,
        function,
        num_arguments: arguments.len() as i32,
        argument_lengths: padded_lengths(arguments),
        argument_data: padded(arguments.flatten()),
    }
}

/// Packs a call of `function` on `address` in the caller's context. The host
/// reads the address and the value as the first 32 bytes of each.
pub fn prepare_dest_context_call(
    address: &[u8],
    value: &[u8],
    function: &str,
    arguments: &[&[u8]],
    gas: i64,
) -> (call: DestContextCall)
    requires
        address@.len() >= 32,
        value@.len() >= 32,
        function.spec_bytes().len() <= i32::MAX,
        arguments@.len() <= ALLOCSIZE,
        joined_parts(arguments@).len() <= ALLOCSIZE,
    ensures
        call@ == dest_context_call_view(
            address@.take(32),
            value@.take(32),
            function.spec_bytes(),
            slices_view(arguments@),
            gas,
        ),
{
    proof {
        assert forall|k: int| 0 <= k < arguments@.len() implies (#[trigger] arguments@[k])@.len()
            <= i32::MAX by {
            lemma_part_within_joined(arguments@, k);
        }
    }
    assert(address@.subrange(0, 32) =~= address@.take(32));
    assert(value@.subrange(0, 32) =~= value@.take(32));
    let argument_data = join_small_slices(arguments);
    let argument_lengths = get_slices_lengths(arguments);
    DestContextCall {
        gas,
        address: slice_to_vec(slice_subrange(address, 0, 32)),
        value: slice_to_vec(slice_subrange(value, 0, 32)),
        function: function.as_bytes_vec(),
        num_arguments: arguments.len() as i32,
        argument_lengths,
        argument_data,
    }
}

/// The gas the parent gives the child's `give`.
pub const GIVE_GAS: i64 = 800000;

/// Parent: runs the child's `give` with the single argument byte 42 and no
/// value, in the caller's context, then returns "child called".
pub fn call_child() -> (r: Vec<HostCall>)
    ensures
        calls_view(r@) == seq![
            HostCallView::ExecuteOnDestContextByCaller(
                dest_context_call_view(
                    fixture_address_bytes("childSC".spec_bytes()),
                    Seq::new(32, |i: int| 0u8),
                    "give".spec_bytes(),
                    seq![seq![42u8]],
                    GIVE_GAS,
                ),
            ),
            HostCallView::FinishBytes("child called".spec_bytes()),
        ],
{
    proof {
        reveal_strlit("childSC");
        reveal_strlit("give");
        assert(vstd::string::is_ascii("childSC"));
        assert(vstd::string::is_ascii("give"));
    }
    let address = fixture_address("childSC");
    let value: [u8; 32] = [0; 32];
    let argument: [u8; 1] = [42];
    let argument_slice: &[u8] = argument.as_slice();
    let arguments: [&[u8]; 1] = [argument_slice];
    proof {
        assert(argument_slice@ =~= seq![42u8]);
        assert(arguments@ =~= seq![argument_slice]);
        assert(slices_view(arguments@) =~= seq![seq![42u8]]);
        assert(joined_parts(arguments@) == seq![seq![42u8]].flatten());
        seq![seq![42u8]].lemma_flatten_one_element();
    }
    let call = prepare_dest_context_call(
        address.bytes.as_slice(),
        value.as_slice(),
        "give",
        arguments.as_slice(),
        GIVE_GAS,
    );
    let r = vec![
        HostCall::ExecuteOnDestContextByCaller(call),
        HostCall::FinishBytes("child called".as_bytes_vec()),
    ];
    assert(value@ =~= Seq::new(32, |i: int| 0u8));
    assert(value@.take(32) =~= value@);
    assert(address.bytes@.take(32) =~= address.bytes@);
    assert(calls_view(r@) =~= seq![
        HostCallView::ExecuteOnDestContextByCaller(
            dest_context_call_view(
                fixture_address_bytes("childSC".spec_bytes()),
                Seq::new(32, |i: int| 0u8),
                "give".spec_bytes(),
                seq![seq![42u8]],
                GIVE_GAS,
            ),
        ),
        HostCallView::FinishBytes("child called".spec_bytes()),
    ]);
    r
}

/// Child: sends the amount it was given as its first argument back to the
/// caller, then returns "sent".
pub fn give(value_to_give: u8, caller: Address) -> (r: Vec<HostCall>)
    ensures
        calls_view(r@) == seq![
            HostCallView::SendTx { to: caller@, amount: value_to_give as u64, message: Seq::empty() },
            HostCallView::FinishBytes("sent".spec_bytes()),
        ],
{
    let r = vec![
        HostCall::SendTx { to: caller, amount: value_to_give as u64, message: Vec::new() },
        HostCall::FinishBytes("sent".as_bytes_vec()),
    ];
    assert(calls_view(r@) =~= seq![
        HostCallView::SendTx { to: caller@, amount: value_to_give as u64, message: Seq::empty() },
        HostCallView::FinishBytes("sent".spec_bytes()),
    ]);
    r
}

} // verus!
