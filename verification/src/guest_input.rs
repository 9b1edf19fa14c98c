//! What a guest program is given to verify: the collateral, the quote and
//! the time, as one ABI-encoded tuple `(bytes, bytes, uint64)`. The encoding
//! is that of `alloy-sol-types`; the contracts of the two functions that
//! reach it are taken on trust.

use vstd::prelude::*;
use alloy_sol_types::sol_data::{Bytes, Uint};
use alloy_sol_types::SolType;
use crate::error::{ErrorView, TdxError};

verus! {

/// The input of a guest program.
#[derive(Debug, Clone, PartialEq, Eq)]
pub struct GuestInput {
    /// The collateral, encoded as the guest program reads it.
    pub collateral: Vec<u8>,
    /// The quote as it was acquired.
    pub raw_quote: Vec<u8>,
    /// The time for which the quote is to be verified, in Unix seconds.
    pub timestamp: u64,
}

/// The mathematical value of a [`GuestInput`].
pub struct GuestInputView {
    pub collateral: Seq<u8>,
    pub raw_quote: Seq<u8>,
    pub timestamp: u64,
}

impl View for GuestInput {
    type V = GuestInputView;

    open spec fn view(&self) -> GuestInputView {
        GuestInputView {
            collateral: self.collateral@,
            raw_quote: self.raw_quote@,
            timestamp: self.timestamp,
        }
    }
}

/// The ABI encoding of the tuple `(bytes, bytes, uint64)` as function parameters.
pub uninterp spec fn abi_encoded(collateral: Seq<u8>, raw_quote: Seq<u8>, timestamp: u64) -> Seq<u8>;

/// The tuple `(bytes, bytes, uint64)` that a buffer holds as ABI-encoded
/// function parameters; `None` where it holds no such tuple.
pub uninterp spec fn abi_decoded(encoded: Seq<u8>) -> Option<(Seq<u8>, Seq<u8>, u64)>;

/// `SolType::abi_encode_params` for the tuple type `(Bytes, Bytes, Uint<64>)`.
/// The contract claims only that the bytes are a function of the three values.
#[verifier::external_body]
fn abi_encode(collateral: &[u8], raw_quote: &[u8], timestamp: u64) -> (encoded: Vec<u8>)
    ensures
        encoded@ == abi_encoded(collateral@, raw_quote@, timestamp),
{
    <(Bytes, Bytes, Uint<64>)>::abi_encode_params(&(collateral, raw_quote, timestamp))
}

/// `SolType::abi_decode_params` for the tuple type `(Bytes, Bytes, Uint<64>)`,
/// with validation. The contract claims only that the outcome is a function
/// of the buffer.
#[verifier::external_body]
fn abi_decode(encoded: &[u8]) -> (r: Option<(Vec<u8>, Vec<u8>, u64)>)
    ensures
        r matches Some((collateral, raw_quote, timestamp)) ==> abi_decoded(encoded@) == Some(
            (collateral@, raw_quote@, timestamp),
        ),
        r is None ==> abi_decoded(encoded@) is None,
{
    match <(Bytes, Bytes, Uint<64>)>::abi_decode_params(encoded, true) {
        Ok((collateral, raw_quote, timestamp)) => Some(
            (collateral.to_vec(), raw_quote.to_vec(), timestamp),
        ),
        Err(_) => None,
    }
}

impl GuestInput {
    /// The input as the guest program reads it.
    pub fn sol_abi_encode(&self) -> (encoded: Vec<u8>)
        ensures
            encoded@ == abi_encoded(self.collateral@, self.raw_quote@, self.timestamp),
    {
        abi_encode(self.collateral.as_slice(), self.raw_quote.as_slice(), self.timestamp)
    }

    /// Reads an input back from its encoding.
    ///
    /// Fails with `EncodingError` exactly where the buffer holds no tuple
    /// of two byte strings and a 64-bit number.
    pub fn sol_abi_decode(encode: &[u8]) -> (r: Result<GuestInput, TdxError>)
        ensures
            match abi_decoded(encode@) {
                Some((collateral, raw_quote, timestamp)) => r matches Ok(input) && input@ == (
                GuestInputView { collateral, raw_quote, timestamp }),
                None => r matches Err(e) && e@ == ErrorView::EncodingError,
            },
    {
        match abi_decode(encode) {
            Some((collateral, raw_quote, timestamp)) => Ok(
                GuestInput { collateral, raw_quote, timestamp },
            ),
            None => Err(TdxError::EncodingError),
        }
    }
}

} // verus!
