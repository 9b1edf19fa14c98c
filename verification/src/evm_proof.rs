//! The inputs of the on-chain verifier, put together from what a prover has
//! left behind: the hash of the verifying key, the proof and the public
//! values, each as text.

use vstd::prelude::*;
use vstd::string::{StringExecFns, StringSliceAdditionalSpecFns};
use vstd::utf8::is_char_boundary;
use num::Num;
use num_bigint::BigInt;
use crate::error::{ErrorView, TdxError};

verus! {

/// The number of values that make up a proof.
pub const PROOF_VALUES: usize = 8;

/// What the on-chain verifier is given.
#[derive(Debug, Clone, PartialEq, Eq)]
pub struct ContractInputs {
    /// The hash of the verifying key: `0x` and 64 hexadecimal digits, or
    /// more where the hash needs more.
    pub riscv_vkey: String,
    /// The first eight values of the proof.
    pub proof: Vec<String>,
    /// The public values, behind `0x`.
    pub public_values: String,
}

/// A number in hexadecimal notation, given in decimal notation; `None`
/// where the text is no number in decimal notation.
pub uninterp spec fn hex_of_decimal(decimal: Seq<char>) -> Option<Seq<char>>;

/// A text without the whitespace at its beginning and at its end.
pub uninterp spec fn trimmed(text: Seq<char>) -> Seq<char>;

/// Parses a number in decimal notation with `BigInt::from_str_radix` and
/// writes it in lower-case hexadecimal notation, as `LowerHex` formats it.
/// The contract claims only that the outcome is a function of the text.
#[verifier::external_body]
fn decimal_to_hex(decimal: &str) -> (r: Option<String>)
    ensures
        r matches Some(hex) ==> hex_of_decimal(decimal@) == Some(hex@),
        r is None ==> hex_of_decimal(decimal@) is None,
{
    match BigInt::from_str_radix(decimal, 10) {
        Ok(number) => Some(format!("{:x}", number)),
        Err(_) => None,
    }
}

/// `str::trim`. The contract claims only that the outcome is a function of
/// the text.
#[verifier::external_body]
fn trim(text: &str) -> (r: &str)
    ensures
        r@ == trimmed(text@),
{
    text.trim()
}

/// `n` zeros.
pub open spec fn zeros(n: int) -> Seq<char> {
    Seq::new(
        if n > 0 {
            n as nat
        } else {
            0
        },
        |i: int| '0',
    )
}

/// A hash in hexadecimal notation as the verifier takes it: behind `0x`,
/// and filled up with zeros at the front to 64 digits where it has fewer.
pub open spec fn padded_vkey(hex: Seq<char>) -> Seq<char> {
    seq!['0', 'x'] + zeros(64 - hex.len()) + hex
}

/// The position of the first comma in `text` at or after `from`, or the
/// length of `text` where there is none.
pub open spec fn comma_from(text: Seq<char>, from: int) -> int
    decreases text.len() - from,
{
    if from < 0 || from >= text.len() {
        text.len() as int
    } else if text[from] == ',' {
        from
    } else {
        comma_from(text, from + 1)
    }
}

/// The pieces of `text` from `from` on that commas part from each other.
/// A text without a comma is one piece, and so is the empty text.
pub open spec fn pieces_from(text: Seq<char>, from: int) -> Seq<Seq<char>>
    decreases text.len() - from,
{
    if from < 0 || from > text.len() {
        seq![]
    } else {
        let comma = comma_from(text, from);
        if from <= comma < text.len() {
            seq![text.subrange(from, comma)] + pieces_from(text, comma + 1)
        } else {
            seq![text.subrange(from, text.len() as int)]
        }
    }
}

/// The pieces of `text` that commas part from each other.
pub open spec fn pieces(text: Seq<char>) -> Seq<Seq<char>> {
    pieces_from(text, 0)
}

/// Whether a byte is a hexadecimal digit of either case.
pub open spec fn is_hex_digit(b: u8) -> bool {
    ||| 0x30 <= b <= 0x39
    ||| 0x41 <= b <= 0x46
    ||| 0x61 <= b <= 0x66
}

/// Whether public values given as text can be taken: behind their first
/// two bytes, which must be there and must not end in the middle of a
/// character, all is hexadecimal digits.
pub open spec fn public_values_accepted(bytes: Seq<u8>) -> bool {
    &&& bytes.len() >= 2
    &&& is_char_boundary(bytes, 2)
    &&& forall|i: int| 2 <= i < bytes.len() ==> is_hex_digit(#[trigger] bytes[i])
}

/// What a caller hears whose hash is no number in decimal notation.
pub open spec fn vkey_refused() -> ErrorView {
    ErrorView::IO("Failed to parse vkey hash"@)
}

/// What a caller hears whose proof has fewer than eight values.
pub open spec fn proof_refused() -> ErrorView {
    ErrorView::IO("Proof holds fewer than eight values"@)
}

/// What a caller hears whose public values cannot be taken.
pub open spec fn public_values_refused() -> ErrorView {
    ErrorView::IO("Invalid hex format in pv file"@)
}

/// The texts of a list of strings.
pub open spec fn texts(list: Seq<String>) -> Seq<Seq<char>> {
    Seq::new(list.len(), |i: int| list[i]@)
}

/// Puts a hash in hexadecimal notation behind `0x` and fills it up with
/// zeros at the front to 64 digits. A longer hash is not cut.
pub fn pad_vkey(hex: &str) -> (r: String)
    ensures
        r@ == padded_vkey(hex@),
{
    let n = hex.unicode_len();
    let mut out = String::from_str("0x");
    proof {
        reveal_strlit("0x");
        reveal_strlit("0");
        assert("0x"@ =~= seq!['0', 'x']);
        assert(out@ =~= seq!['0', 'x'] + zeros(0));
    }
    let mut i: usize = n;
    while i < 64
        invariant
            n <= i,
            n == hex@.len(),
            n < 64 ==> i <= 64,
            n >= 64 ==> i == n,
            out@ == seq!['0', 'x'] + zeros(i - n),
            "0"@ == seq!['0'],
        decreases 64 - i,
    {
        out.append("0");
        proof {
            assert(zeros(i - n) + seq!['0'] =~= zeros(i + 1 - n));
            assert(out@ =~= seq!['0', 'x'] + zeros(i + 1 - n));
        }
        i = i + 1;
    }
    proof {
        assert(zeros(i - n) =~= zeros(64 - n));
    }
    out.append(hex);
    out
}

/// After a position that is no comma, the first comma is where it was.
proof fn lemma_comma_step(text: Seq<char>, from: int)
    requires
        0 <= from < text.len(),
        text[from] != ',',
    ensures
        comma_from(text, from) == comma_from(text, from + 1),
{
}

/// Parts a text at its commas.
pub fn split_commas(text: &str) -> (r: Vec<String>)
    ensures
        texts(r@) == pieces(text@),
{
    let n = text.unicode_len();
    let mut out: Vec<String> = Vec::new();
    let mut start: usize = 0;
    let mut i: usize = 0;
    while i < n
        invariant
            start <= i <= n,
            n == text@.len(),
            pieces(text@) == texts(out@) + pieces_from(text@, start as int),
            comma_from(text@, start as int) == comma_from(text@, i as int),
        decreases n - i,
    {
        if text.get_char(i) == ',' {
            let piece = text.substring_char(start, i);
            let ghost before = texts(out@);
            out.push(piece.to_owned());
            proof {
                assert(comma_from(text@, i as int) == i);
                assert(texts(out@) =~= before + seq![text@.subrange(start as int, i as int)]);
                assert(pieces_from(text@, start as int) == seq![
                    text@.subrange(start as int, i as int),
                ] + pieces_from(text@, i + 1));
                assert(pieces(text@) =~= texts(out@) + pieces_from(text@, i + 1));
            }
            start = i + 1;
        } else {
            proof {
                lemma_comma_step(text@, i as int);
            }
        }
        i = i + 1;
    }
    let piece = text.substring_char(start, n);
    let ghost before = texts(out@);
    out.push(piece.to_owned());
    proof {
        assert(comma_from(text@, n as int) == n);
        assert(texts(out@) =~= before + seq![text@.subrange(start as int, n as int)]);
        assert(pieces_from(text@, start as int) =~= seq![text@.subrange(start as int, n as int)]);
    }
    out
}

/// Whether public values given as text can be taken.
pub fn check_public_values(text: &str) -> (ok: bool)
    ensures
        ok == public_values_accepted(text.spec_bytes()),
{
    let bytes = text.as_bytes();
    let n = bytes.len();
    if n < 2 || !text.is_char_boundary(2) {
        return false;
    }
    let mut i: usize = 2;
    while i < n
        invariant
            2 <= i <= n,
            n == bytes@.len(),
            bytes@ == text.spec_bytes(),
            is_char_boundary(bytes@, 2),
            forall|k: int| 2 <= k < i ==> is_hex_digit(#[trigger] bytes@[k]),
        decreases n - i,
    {
        let b: u8 = bytes[i];
        if !((0x30 <= b && b <= 0x39) || (0x41 <= b && b <= 0x46) || (0x61 <= b && b <= 0x66)) {
            return false;
        }
        i = i + 1;
    }
    true
}

/// Puts the inputs of the verifier together.
///
/// - The hash of the verifying key is given in decimal notation and handed
///   on in hexadecimal notation, as [`pad_vkey`] writes it.
/// - The proof is a text of values with commas between them, of which the
///   first eight are handed on.
/// - The public values are taken without the whitespace around them, and
///   handed on behind `0x`.
///
/// Fails with `IO` where the hash is no decimal number, else where the
/// proof has fewer than eight values, else where the public values cannot
/// be taken; succeeds everywhere else.
pub fn contract_inputs(vkey_hash: &str, proof_data: &str, public_values: &str) -> (r: Result<
    ContractInputs,
    TdxError,
>)
    ensures
        match hex_of_decimal(vkey_hash@) {
            None => r matches Err(e) && e@ == vkey_refused(),
            Some(hex) => if pieces(proof_data@).len() < 8 {
                r matches Err(e) && e@ == proof_refused()
            } else if !public_values_accepted(vstd::utf8::encode_utf8(trimmed(public_values@))) {
                r matches Err(e) && e@ == public_values_refused()
            } else {
                r matches Ok(inputs) && {
                    &&& inputs.riscv_vkey@ == padded_vkey(hex)
                    &&& texts(inputs.proof@) == pieces(proof_data@).subrange(0, 8)
                    &&& inputs.public_values@ == seq!['0', 'x'] + trimmed(public_values@)
                }
            },
        },
{
    let hex = match decimal_to_hex(vkey_hash) {
        Some(hex) => hex,
        None => {
            return Err(TdxError::IO("Failed to parse vkey hash".to_owned()));
        },
    };
    let riscv_vkey = pad_vkey(hex.as_str());
    let mut proof = split_commas(proof_data);
    if proof.len() < PROOF_VALUES {
        return Err(TdxError::IO("Proof holds fewer than eight values".to_owned()));
    }
    let ghost all = texts(proof@);
    proof.truncate(PROOF_VALUES);
    proof {
        assert(texts(proof@) =~= all.subrange(0, 8));
    }
    let values = trim(public_values);
    if !check_public_values(values) {
        return Err(TdxError::IO("Invalid hex format in pv file".to_owned()));
    }
    let public_values = String::from_str("0x").concat(values);
    proof {
        reveal_strlit("0x");
        assert("0x"@ =~= seq!['0', 'x']);
    }
    Ok(ContractInputs { riscv_vkey, proof, public_values })
}

} // verus!
