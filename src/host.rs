//! The host calls a contract makes, as plain values.
use vstd::prelude::*;
use vstd::string::StrSliceExecFns;
use vstd::string::StringSliceAdditionalSpecFns;

use crate::exec_dest_ctx::{DestContextCall, DestContextCallView};

verus! {

broadcast use vstd::string::group_string_axioms;

/// A 32-byte account address.
#[derive(Clone, Copy, Debug, PartialEq, Eq)]
pub struct Address {
    pub bytes: [u8; 32],
}

impl View for Address {
    type V = Seq<u8>;

    open spec fn view(&self) -> Seq<u8> {
        self.bytes@
    }
}

/// The address of a test contract: eight zero bytes, two `0x0F` bytes, the
/// contract's name, then dots up to 32 bytes.
pub open spec fn fixture_address_bytes(name: Seq<u8>) -> Seq<u8> {
    Seq::new(8, |i: int| 0u8) + seq![0x0Fu8, 0x0Fu8] + name + Seq::new(
        (22 - name.len()) as nat,
        |i: int| 0x2Eu8,
    )
}

/// The address of the test contract called `name`.
pub fn fixture_address(name: &str) -> (r: Address)
    requires
        name.spec_bytes().len() <= 22,
    ensures
        r@ == fixture_address_bytes(name.spec_bytes()),
{
    let name_bytes: &[u8] = name.as_bytes();
    let n = name_bytes.len();
    let ghost target = fixture_address_bytes(name.spec_bytes());
    proof {
        let zeros = Seq::new(8, |i: int| 0u8);
        let marks = seq![0x0Fu8, 0x0Fu8];
        let dots = Seq::new((22 - n) as nat, |i: int| 0x2Eu8);
        assert(target == zeros + marks + name_bytes@ + dots);
        assert forall|q: int| 0 <= q < 32 implies #[trigger] target[q] == if q < 8 {
            0u8
        } else if q < 10 {
            0x0Fu8
        } else if q - 10 < n {
            name_bytes@[q - 10]
        } else {
            0x2Eu8
        } by {
            if q < 8 {
                assert(target[q] == zeros[q]);
            } else if q < 10 {
                assert(target[q] == marks[q - 8]);
            } else if q - 10 < n {
                assert(target[q] == name_bytes@[q - 10]);
            } else {
                assert(target[q] == dots[q - 10 - n]);
            }
        }
    }
    let mut bytes: [u8; 32] = [0x2E; 32];
    for k in 0..32usize
        invariant
            n == name_bytes@.len(),
            name_bytes@ == name.spec_bytes(),
            n <= 22,
            target.len() == 32,
            bytes@.len() == 32,
            forall|q: int|
                0 <= q < 32 ==> #[trigger] target[q] == if q < 8 {
                    0u8
                } else if q < 10 {
                    0x0Fu8
                } else if q - 10 < n {
                    name_bytes@[q - 10]
                } else {
                    0x2Eu8
                },
            forall|q: int| 0 <= q < k ==> bytes@[q] == target[q],
    {
        if k < 8 {
            bytes[k] = 0;
        } else if k < 10 {
            bytes[k] = 0x0F;
        } else if k - 10 < n {
            bytes[k] = name_bytes[k - 10];
        } else {
            bytes[k] = 0x2E;
        }
    }
    assert(bytes@ =~= target);
    Address { bytes }
}

/// The empty string has no bytes; as a callback name it means no callback.
pub proof fn lemma_empty_name()
    ensures
        "".spec_bytes() == Seq::<u8>::empty(),
{
    reveal_strlit("");
    assert(vstd::string::is_ascii(""));
    assert("".spec_bytes() =~= Seq::<u8>::empty());
}

/// A request for the host to call `destination` later, in group `group_id`,
/// and to run the named callbacks of this contract on the reply.
#[derive(Clone, Debug, PartialEq, Eq)]
pub struct AsyncCall {
    pub group_id: Vec<u8>,
    pub destination: Address,
    /// The value sent along, as 32 big-endian bytes.
    pub value: Vec<u8>,
    pub data: Vec<u8>,
    pub success_callback: Vec<u8>,
    pub error_callback: Vec<u8>,
    pub gas: i64,
}

pub struct AsyncCallView {
    pub group_id: Seq<u8>,
    pub destination: Seq<u8>,
    pub value: Seq<u8>,
    pub data: Seq<u8>,
    pub success_callback: Seq<u8>,
    pub error_callback: Seq<u8>,
    pub gas: i64,
}

impl View for AsyncCall {
    type V = AsyncCallView;

    open spec fn view(&self) -> AsyncCallView {
        AsyncCallView {
            group_id: self.group_id@,
            destination: self.destination@,
            value: self.value@,
            data: self.data@,
            success_callback: self.success_callback@,
            error_callback: self.error_callback@,
            gas: self.gas,
        }
    }
}

/// One call from a contract into the host.
#[derive(Clone, Debug, PartialEq, Eq)]
pub enum HostCall {
    FinishU64(u64),
    FinishI64(i64),
    FinishBytes(Vec<u8>),
    StoreU64 { key: Vec<u8>, value: u64 },
    StoreBytes { key: Vec<u8>, bytes: Vec<u8> },
    CreateAsyncCall(AsyncCall),
    ExecuteOnDestContextByCaller(DestContextCall),
    /// Sends `amount` to `to`, with `message` as the transaction data.
    SendTx { to: Address, amount: u64, message: Vec<u8> },
    /// Aborts the invocation with `message`.
    SignalError(Vec<u8>),
}

pub enum HostCallView {
    FinishU64(u64),
    FinishI64(i64),
    FinishBytes(Seq<u8>),
    StoreU64 { key: Seq<u8>, value: u64 },
    StoreBytes { key: Seq<u8>, bytes: Seq<u8> },
    CreateAsyncCall(AsyncCallView),
    ExecuteOnDestContextByCaller(DestContextCallView),
    SendTx { to: Seq<u8>, amount: u64, message: Seq<u8> },
    SignalError(Seq<u8>),
}

impl View for HostCall {
    type V = HostCallView;

    open spec fn view(&self) -> HostCallView {
        match self {
            HostCall::FinishU64(v) => HostCallView::FinishU64(*v),
            HostCall::FinishI64(v) => HostCallView::FinishI64(*v),
            HostCall::FinishBytes(b) => HostCallView::FinishBytes(b@),
            HostCall::StoreU64 { key, value } => HostCallView::StoreU64 { key: key@, value: *value },
            HostCall::StoreBytes { key, bytes } => HostCallView::StoreBytes {
                key: key@,
                bytes: bytes@,
            },
            HostCall::CreateAsyncCall(c) => HostCallView::CreateAsyncCall(c@),
            HostCall::ExecuteOnDestContextByCaller(c) => HostCallView::ExecuteOnDestContextByCaller(
                c@,
            ),
            HostCall::SendTx { to, amount, message } => HostCallView::SendTx {
                to: to@,
                amount: *amount,
                message: message@,
            },
            HostCall::SignalError(m) => HostCallView::SignalError(m@),
        }
    }
}

/// The calls of one invocation, in the order they are made.
pub open spec fn calls_view(calls: Seq<HostCall>) -> Seq<HostCallView> {
    calls.map_values(|c: HostCall| c@)
}

/// Whether the calls end the invocation with an error.
pub open spec fn signals_error(calls: Seq<HostCallView>) -> bool {
    exists|i: int| 0 <= i < calls.len() && calls[i] is SignalError
}

/// Whether any of the calls returns a result.
pub open spec fn finishes(calls: Seq<HostCallView>) -> bool {
    exists|i: int|
        0 <= i < calls.len() && (calls[i] is FinishU64 || calls[i] is FinishI64
            || calls[i] is FinishBytes)
}

/// The message with which the host's argument count check aborts.
pub open spec fn wrong_number_of_arguments_message() -> Seq<u8> {
    "wrong number of arguments".spec_bytes()
}

/// What an invocation does when it was given another number of arguments
/// than it expects: it aborts.
pub open spec fn wrong_arguments_calls() -> Seq<HostCallView> {
    seq![HostCallView::SignalError(wrong_number_of_arguments_message())]
}

/// The calls made by an invocation that aborts on a wrong argument count.
pub fn wrong_number_of_arguments() -> (r: Vec<HostCall>)
    ensures
        calls_view(r@) == wrong_arguments_calls(),
{
    let r = vec![HostCall::SignalError("wrong number of arguments".as_bytes_vec())];
    assert(calls_view(r@) =~= wrong_arguments_calls());
    r
}

/// The single call `call`.
pub fn one_call(call: HostCall) -> (r: Vec<HostCall>)
    ensures
        calls_view(r@) == seq![call@],
{
    let r = vec![call];
    assert(calls_view(r@) =~= seq![call@]);
    r
}

/// The calls `first` then `second`.
pub fn two_calls(first: HostCall, second: HostCall) -> (r: Vec<HostCall>)
    ensures
        calls_view(r@) == seq![first@, second@],
{
    let r = vec![first, second];
    assert(calls_view(r@) =~= seq![first@, second@]);
    r
}

} // verus!
