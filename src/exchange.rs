//! The exchange contract's checks on the ESDT transfer that came with a call.
use vstd::prelude::*;
use vstd::string::StrSliceExecFns;
use vstd::string::StringSliceAdditionalSpecFns;

verus! {

/// The token name the exchange accepts.
pub const TOKEN_NAME: &'static str = "TT";

/// What the exchange reads of the ESDT transfer that came with a call.
#[derive(Clone, Debug)]
pub struct Exchange {
    /// The name of the transferred token, if any token came.
    pub esdt_token_name: Option<Vec<u8>>,
    /// The transferred amount, as big-endian bytes.
    pub esdt_value: Vec<u8>,
}

/// The number that big-endian `bytes` encode.
pub open spec fn big_endian_value(bytes: Seq<u8>) -> nat
    decreases bytes.len(),
{
    if bytes.len() == 0 {
        0
    } else {
        big_endian_value(bytes.drop_last()) * 256 + bytes.last() as nat
    }
}

/// A prefix of big-endian bytes never encodes more than the whole.
pub proof fn lemma_big_endian_prefix_le(bytes: Seq<u8>, i: int)
    requires
        0 <= i <= bytes.len(),
    ensures
        big_endian_value(bytes.subrange(0, i)) <= big_endian_value(bytes),
    decreases bytes.len() - i,
{
    if i < bytes.len() {
        let next = bytes.subrange(0, i + 1);
        assert(next.drop_last() =~= bytes.subrange(0, i));
        lemma_big_endian_prefix_le(bytes, i + 1);
        assert(bytes.subrange(0, bytes.len() as int) =~= bytes);
    } else {
        assert(bytes.subrange(0, i) =~= bytes);
    }
}

/// Whether big-endian `bytes` encode `expected`.
pub fn big_endian_equals(bytes: &Vec<u8>, expected: u64) -> (r: bool)
    ensures
        r == (big_endian_value(bytes@) == expected),
{
    let mut acc: u64 = 0;
    let n = bytes.len();
    for i in 0..n
        invariant
            n == bytes@.len(),
            acc == big_endian_value(bytes@.subrange(0, i as int)),
    {
        let b = bytes[i];
        proof {
            assert(bytes@.subrange(0, i + 1).drop_last() =~= bytes@.subrange(0, i as int));
        }
        if acc > 0x00FF_FFFF_FFFF_FFFF {
            proof {
                lemma_big_endian_prefix_le(bytes@, i + 1);
            }
            return false;
        }
        acc = acc * 256 + b as u64;
    }
    assert(bytes@.subrange(0, n as int) =~= bytes@);
    acc == expected
}

/// The error with `message`.
pub open spec fn error_with(message: &str) -> Result<(), Seq<u8>> {
    Err(message.spec_bytes())
}

/// The view of a check's outcome: the error's message, if it failed.
pub open spec fn outcome_view(r: Result<(), Vec<u8>>) -> Result<(), Seq<u8>> {
    match r {
        Ok(()) => Ok(()),
        Err(m) => Err(m@),
    }
}

/// The outcome of the token name check on `name`.
pub open spec fn token_name_outcome(name: Option<Seq<u8>>) -> Result<(), Seq<u8>> {
    match name {
        None => error_with("esdt token required"),
        Some(n) => if n == TOKEN_NAME.spec_bytes() {
            Ok(())
        } else {
            error_with("wrong esdt token")
        },
    }
}

/// The outcome of the value check on `value` against `expected`.
pub open spec fn token_value_outcome(value: Seq<u8>, expected: u64) -> Result<(), Seq<u8>> {
    if big_endian_value(value) == expected {
        Ok(())
    } else {
        error_with("wrong esdt value")
    }
}

/// The value the getters check expects.
pub const EXPECTED_ESDT_VALUE: u64 = 5;

impl Exchange {
    pub open spec fn name_view(&self) -> Option<Seq<u8>> {
        match self.esdt_token_name {
            None => None,
            Some(n) => Some(n@),
        }
    }

    /// Checks that a token named `TT` came with the call, with a value of 5.
    pub fn validate_getters(&self) -> (r: Result<(), Vec<u8>>)
        ensures
            outcome_view(r) == match token_name_outcome(self.name_view()) {
                Ok(()) => token_value_outcome(self.esdt_value@, EXPECTED_ESDT_VALUE),
                Err(m) => Err(m),
            },
    {
        let name_check = self.validate_esdt_token_name();
        if name_check.is_err() {
            return name_check;
        }
        self.validate_esdt_token_value(EXPECTED_ESDT_VALUE)
    }

    /// Checks that a token came with the call, and that it is named `TT`.
    pub fn validate_esdt_token_name(&self) -> (r: Result<(), Vec<u8>>)
        ensures
            outcome_view(r) == token_name_outcome(self.name_view()),
    {
        match &self.esdt_token_name {
            None => Err("esdt token required".as_bytes_vec()),
            Some(name) => {
                if bytes_equal(name, TOKEN_NAME.as_bytes()) {
                    Ok(())
                } else {
                    Err("wrong esdt token".as_bytes_vec())
                }
            },
        }
    }

    /// Checks that the transferred value is `expected_value`.
    pub fn validate_esdt_token_value(&self, expected_value: u64) -> (r: Result<(), Vec<u8>>)
        ensures
            outcome_view(r) == token_value_outcome(self.esdt_value@, expected_value),
    {
        if big_endian_equals(&self.esdt_value, expected_value) {
            Ok(())
        } else {
            Err("wrong esdt value".as_bytes_vec())
        }
    }

    /// Accepts every call.
    pub fn validate_getters_after_esdt_transfer(&self) -> (r: Result<(), Vec<u8>>)
        ensures
            r is Ok,
    {
        Ok(())
    }
}

/// Whether `a` and `b` hold the same bytes.
pub fn bytes_equal(a: &Vec<u8>, b: &[u8]) -> (r: bool)
    ensures
        r == (a@ == b@),
{
    if a.len() != b.len() {
        return false;
    }
    let n = a.len();
    for i in 0..n
        invariant
            n == a@.len(),
            n == b@.len(),
            forall|k: int| 0 <= k < i ==> a@[k] == b@[k],
    {
        if a[i] != b[i] {
            return false;
        }
    }
    assert(a@ =~= b@);
    true
}

} // verus!
