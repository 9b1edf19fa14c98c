//! Text encodings of bytes. The encoders and decoders are those of the
//! `hex`, `base64-url` and `pem` crates; their contracts are taken on trust.

use vstd::prelude::*;
use rand::RngCore;
use crate::chain::begin_marker;

verus! {

/// The sixteen digits of lower-case hexadecimal notation.
pub open spec fn hex_digits() -> Seq<char> {
    seq!['0', '1', '2', '3', '4', '5', '6', '7', '8', '9', 'a', 'b', 'c', 'd', 'e', 'f']
}

/// Bytes in lower-case hexadecimal notation: two digits for each byte, the
/// upper half first.
pub open spec fn hex_lower(bytes: Seq<u8>) -> Seq<char> {
    Seq::new(
        2 * bytes.len(),
        |i: int|
            if i % 2 == 0 {
                hex_digits()[bytes[i / 2] as int / 16]
            } else {
                hex_digits()[bytes[i / 2] as int % 16]
            },
    )
}

/// `hex::encode`: the bytes in lower-case hexadecimal notation.
#[verifier::external_body]
pub(crate) fn hex_encode(bytes: &[u8]) -> (text: String)
    ensures
        text@ == hex_lower(bytes@),
{
    hex::encode(bytes)
}

/// The value of a hexadecimal digit, of either case; `None` for any other character.
pub open spec fn hex_value(c: char) -> Option<int> {
    if '0' <= c <= '9' {
        Some(c as int - '0' as int)
    } else if 'a' <= c <= 'f' {
        Some(c as int - 'a' as int + 10)
    } else if 'A' <= c <= 'F' {
        Some(c as int - 'A' as int + 10)
    } else {
        None
    }
}

/// The bytes that a text in hexadecimal notation stands for: one byte for
/// every two digits, the upper half first. `None` where the text holds
/// anything but digits, or an odd number of them.
pub open spec fn hex_decoded(text: Seq<char>) -> Option<Seq<u8>> {
    if text.len() % 2 == 0 && forall|i: int| 0 <= i < text.len() ==> hex_value(#[trigger] text[i]) is Some {
        Some(
            Seq::new(
                text.len() / 2,
                |i: int| (hex_value(text[2 * i])->0 * 16 + hex_value(text[2 * i + 1])->0) as u8,
            ),
        )
    } else {
        None
    }
}

/// `hex::decode`: the bytes that the text stands for, where it is made of
/// an even number of hexadecimal digits of either case, and a failure
/// everywhere else.
#[verifier::external_body]
pub(crate) fn hex_decode(text: &str) -> (r: Option<Vec<u8>>)
    ensures
        r matches Some(bytes) ==> hex_decoded(text@) == Some(bytes@),
        r is None ==> hex_decoded(text@) is None,
{
    match hex::decode(text) {
        Ok(bytes) => Some(bytes),
        Err(_) => None,
    }
}

/// Bytes in base64 with the URL-safe alphabet and without padding.
pub uninterp spec fn base64url(bytes: Seq<u8>) -> Seq<char>;

/// The bytes that a text in base64 with the URL-safe alphabet and without
/// padding stands for; `None` where the text is no such text.
pub uninterp spec fn base64url_decoded(text: Seq<char>) -> Option<Seq<u8>>;

/// `base64_url::encode`. The contract claims only that the text is a
/// function of the bytes.
#[verifier::external_body]
pub(crate) fn base64url_encode(bytes: &[u8]) -> (text: String)
    ensures
        text@ == base64url(bytes@),
{
    base64_url::encode(bytes)
}

/// `base64_url::decode`. The contract claims only that the outcome is a
/// function of the text.
#[verifier::external_body]
pub(crate) fn base64url_decode(text: &str) -> (r: Option<Vec<u8>>)
    ensures
        r matches Some(bytes) ==> base64url_decoded(text@) == Some(bytes@),
        r is None ==> base64url_decoded(text@) is None,
{
    match base64_url::decode(text) {
        Ok(bytes) => Some(bytes),
        Err(_) => None,
    }
}

/// A DER-encoded certificate as one PEM block with the tag `CERTIFICATE`.
pub uninterp spec fn pem_certificate(der: Seq<u8>) -> Seq<u8>;

/// `pem::encode` of a `pem::Pem` that `Pem::new` made with the tag
/// `CERTIFICATE` and these contents. Beside naming the block, the contract
/// claims that it begins with the line that opens a PEM certificate, which
/// the encoder writes first.
#[verifier::external_body]
pub(crate) fn pem_encode_certificate(der: &[u8]) -> (block: Vec<u8>)
    ensures
        block@ == pem_certificate(der@),
        block@.len() >= 27,
        block@.subrange(0, 27) == begin_marker(),
{
    pem::encode(&pem::Pem::new("CERTIFICATE", der)).into_bytes()
}

/// Sixty-four bytes from `rand::thread_rng`, filled in with
/// `RngCore::fill_bytes`. Nothing is claimed of them.
#[verifier::external_body]
pub(crate) fn random_bytes() -> [u8; 64] {
    let mut data = [0u8; 64];
    rand::thread_rng().fill_bytes(&mut data);
    data
}

} // verus!
