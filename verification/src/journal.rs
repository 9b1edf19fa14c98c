//! The journal: the fixed binary record that carries a verification result
//! and the content hashes of the collateral into a proving pipeline.
//!
//! Layout, all integers big-endian:
//!
//! ```text
//! [0 : 2)          u16  L, the length of the verification result
//! [2 : 2+L)             the verification result, opaque
//! [2+L : 2+L+8)    u64  the verification timestamp, Unix seconds
//! then six hashes of 32 bytes each: TCB info, enclave identity,
//! root CA certificate, TCB signing certificate, root CA CRL, platform CRL
//! ```

use vstd::prelude::*;
use vstd::slice::{slice_subrange, slice_to_vec};
use crate::error::{ErrorView, TdxError};

verus! {

/// The length of what follows the verification result: the timestamp and six hashes.
pub const TRAILER_LEN: usize = 200;

/// The content hashes of the six collateral artifacts, in the order in which
/// the journal holds them.
#[derive(Debug, Clone, Copy, PartialEq, Eq)]
pub struct CollateralHashes {
    pub tcb_info: [u8; 32],
    pub enclave_identity: [u8; 32],
    pub root_ca: [u8; 32],
    pub tcb_signing: [u8; 32],
    pub root_ca_crl: [u8; 32],
    pub platform_crl: [u8; 32],
}

/// What a journal says: the verification result as the oracle encoded it, the
/// time the validity checks were made for, and the hashes of the collateral.
#[derive(Debug, Clone, PartialEq, Eq)]
pub struct Journal {
    pub verified_output: Vec<u8>,
    pub timestamp: u64,
    pub hashes: CollateralHashes,
}

/// The mathematical value of a [`CollateralHashes`].
pub struct HashesView {
    pub tcb_info: Seq<u8>,
    pub enclave_identity: Seq<u8>,
    pub root_ca: Seq<u8>,
    pub tcb_signing: Seq<u8>,
    pub root_ca_crl: Seq<u8>,
    pub platform_crl: Seq<u8>,
}

/// The mathematical value of a [`Journal`].
pub struct JournalView {
    pub verified_output: Seq<u8>,
    pub timestamp: u64,
    pub hashes: HashesView,
}

impl HashesView {
    /// Every hash has its 32 bytes.
    pub open spec fn wf(self) -> bool {
        &&& self.tcb_info.len() == 32
        &&& self.enclave_identity.len() == 32
        &&& self.root_ca.len() == 32
        &&& self.tcb_signing.len() == 32
        &&& self.root_ca_crl.len() == 32
        &&& self.platform_crl.len() == 32
    }

    /// The six hashes one after the other, 192 bytes.
    pub open spec fn bytes(self) -> Seq<u8> {
        self.tcb_info + self.enclave_identity + self.root_ca + self.tcb_signing
            + self.root_ca_crl + self.platform_crl
    }
}

impl View for CollateralHashes {
    type V = HashesView;

    open spec fn view(&self) -> HashesView {
        HashesView {
            tcb_info: self.tcb_info@,
            enclave_identity: self.enclave_identity@,
            root_ca: self.root_ca@,
            tcb_signing: self.tcb_signing@,
            root_ca_crl: self.root_ca_crl@,
            platform_crl: self.platform_crl@,
        }
    }
}

impl View for Journal {
    type V = JournalView;

    open spec fn view(&self) -> JournalView {
        JournalView {
            verified_output: self.verified_output@,
            timestamp: self.timestamp,
            hashes: self.hashes@,
        }
    }
}

/// The two bytes of `n`, most significant first.
pub open spec fn u16_be(n: u16) -> Seq<u8> {
    seq![(n / 256) as u8, (n % 256) as u8]
}

/// The number that two bytes stand for, most significant first.
pub open spec fn u16_from_be(hi: u8, lo: u8) -> u16 {
    (hi as int * 256 + lo as int) as u16
}

/// The eight bytes of `n`, most significant first.
pub open spec fn u64_be(n: u64) -> Seq<u8> {
    seq![
        (n / 0x100_0000_0000_0000) as u8,
        (n / 0x1_0000_0000_0000 % 256) as u8,
        (n / 0x100_0000_0000 % 256) as u8,
        (n / 0x1_0000_0000 % 256) as u8,
        (n / 0x100_0000 % 256) as u8,
        (n / 0x1_0000 % 256) as u8,
        (n / 0x100 % 256) as u8,
        (n % 256) as u8,
    ]
}

/// The number that the first eight bytes of `b` stand for, most significant first.
pub open spec fn u64_from_be(b: Seq<u8>) -> u64 {
    (b[0] as int * 0x100_0000_0000_0000 + b[1] as int * 0x1_0000_0000_0000
        + b[2] as int * 0x100_0000_0000 + b[3] as int * 0x1_0000_0000
        + b[4] as int * 0x100_0000 + b[5] as int * 0x1_0000
        + b[6] as int * 0x100 + b[7] as int) as u64
}

/// The length field of a journal whose verification result is `len` bytes
/// long: the length itself where two bytes can hold it, else what is left of
/// it after the upper bits are cut off.
pub open spec fn length_field(len: nat) -> u16 {
    (len % 0x1_0000) as u16
}

/// The bytes of a journal.
pub open spec fn journal_bytes(j: JournalView) -> Seq<u8> {
    u16_be(length_field(j.verified_output.len())) + j.verified_output + u64_be(j.timestamp)
        + j.hashes.bytes()
}

/// What a buffer says when read as a journal: `None` where it ends before the
/// length field, the declared verification result or the trailer does.
/// Bytes after the trailer are not looked at.
pub open spec fn journal_of_bytes(b: Seq<u8>) -> Option<JournalView> {
    if b.len() < 2 {
        None
    } else {
        let l = u16_from_be(b[0], b[1]) as int;
        if b.len() < 2 + l + 200 {
            None
        } else {
            let t = 2 + l;
            Some(
                JournalView {
                    verified_output: b.subrange(2, t),
                    timestamp: u64_from_be(b.subrange(t, t + 8)),
                    hashes: HashesView {
                        tcb_info: b.subrange(t + 8, t + 40),
                        enclave_identity: b.subrange(t + 40, t + 72),
                        root_ca: b.subrange(t + 72, t + 104),
                        tcb_signing: b.subrange(t + 104, t + 136),
                        root_ca_crl: b.subrange(t + 136, t + 168),
                        platform_crl: b.subrange(t + 168, t + 200),
                    },
                },
            )
        }
    }
}

/// Eight bytes that were written from a number read back as that number.
pub proof fn lemma_u64_be_round_trip(n: u64)
    ensures
        u64_be(n).len() == 8,
        u64_from_be(u64_be(n)) == n,
{
    let q1 = n as int / 0x100;
    let q2 = q1 / 0x100;
    let q3 = q2 / 0x100;
    let q4 = q3 / 0x100;
    let q5 = q4 / 0x100;
    let q6 = q5 / 0x100;
    let q7 = q6 / 0x100;
    assert(q1 == n as int / 0x100);
    assert(q2 == n as int / 0x1_0000);
    assert(q3 == n as int / 0x100_0000);
    assert(q4 == n as int / 0x1_0000_0000);
    assert(q5 == n as int / 0x100_0000_0000);
    assert(q6 == n as int / 0x1_0000_0000_0000);
    assert(q7 == n as int / 0x100_0000_0000_0000);
    assert(q7 < 256);
    let b = u64_be(n);
    assert(b[7] as int == n as int % 256);
    assert(b[6] as int == q1 % 256);
    assert(b[5] as int == q2 % 256);
    assert(b[4] as int == q3 % 256);
    assert(b[3] as int == q4 % 256);
    assert(b[2] as int == q5 % 256);
    assert(b[1] as int == q6 % 256);
    assert(b[0] as int == q7);
    assert(n as int == q1 * 0x100 + b[7] as int);
    assert(q1 == q2 * 0x100 + b[6] as int);
    assert(q2 == q3 * 0x100 + b[5] as int);
    assert(q3 == q4 * 0x100 + b[4] as int);
    assert(q4 == q5 * 0x100 + b[3] as int);
    assert(q5 == q6 * 0x100 + b[2] as int);
    assert(q6 == q7 * 0x100 + b[1] as int);
}

/// Decoding undoes encoding: a journal whose verification result fits the
/// two-byte length field, and whose hashes have 32 bytes each, is read back
/// from its bytes as it was.
pub proof fn lemma_decode_encode(j: JournalView)
    requires
        j.verified_output.len() <= 0xffff,
        j.hashes.wf(),
    ensures
        journal_of_bytes(journal_bytes(j)) == Some(j),
{
    let b = journal_bytes(j);
    let l = j.verified_output.len() as int;
    let t = 2 + l;
    lemma_u64_be_round_trip(j.timestamp);
    assert(b.len() == t + 200);
    assert(b[0] == (length_field(l as nat) / 256) as u8);
    assert(b[1] == (length_field(l as nat) % 256) as u8);
    assert(u16_from_be(b[0], b[1]) as int == l);
    assert(b.subrange(2, t) =~= j.verified_output);
    assert(b.subrange(t, t + 8) =~= u64_be(j.timestamp));
    assert(b.subrange(t + 8, t + 40) =~= j.hashes.tcb_info);
    assert(b.subrange(t + 40, t + 72) =~= j.hashes.enclave_identity);
    assert(b.subrange(t + 72, t + 104) =~= j.hashes.root_ca);
    assert(b.subrange(t + 104, t + 136) =~= j.hashes.tcb_signing);
    assert(b.subrange(t + 136, t + 168) =~= j.hashes.root_ca_crl);
    assert(b.subrange(t + 168, t + 200) =~= j.hashes.platform_crl);
}

fn push_u64_be(out: &mut Vec<u8>, n: u64)
    ensures
        final(out)@ == old(out)@ + u64_be(n),
{
    out.push((n / 0x100_0000_0000_0000) as u8);
    out.push((n / 0x1_0000_0000_0000 % 256) as u8);
    out.push((n / 0x100_0000_0000 % 256) as u8);
    out.push((n / 0x1_0000_0000 % 256) as u8);
    out.push((n / 0x100_0000 % 256) as u8);
    out.push((n / 0x1_0000 % 256) as u8);
    out.push((n / 0x100 % 256) as u8);
    out.push((n % 256) as u8);
    assert(out@ =~= old(out)@ + u64_be(n));
}

fn read_u64_be(bytes: &[u8], at: usize) -> (n: u64)
    requires
        at + 8 <= bytes@.len(),
    ensures
        n == u64_from_be(bytes@.subrange(at as int, at + 8)),
{
    let total: usize = bytes.len();
    let mut n: u64 = 0;
    let mut i: usize = 0;
    let ghost s = bytes@.subrange(at as int, at + 8);
    while i < 8
        invariant
            i <= 8,
            at + 8 <= bytes@.len(),
            bytes@.len() == total,
            s == bytes@.subrange(at as int, at + 8),
            i == 0 ==> n == 0,
            i == 1 ==> n == s[0] as int,
            i == 2 ==> n == s[0] as int * 0x100 + s[1] as int,
            i == 3 ==> n == s[0] as int * 0x1_0000 + s[1] as int * 0x100 + s[2] as int,
            i == 4 ==> n == s[0] as int * 0x100_0000 + s[1] as int * 0x1_0000 + s[2] as int
                * 0x100 + s[3] as int,
            i == 5 ==> n == s[0] as int * 0x1_0000_0000 + s[1] as int * 0x100_0000 + s[2] as int
                * 0x1_0000 + s[3] as int * 0x100 + s[4] as int,
            i == 6 ==> n == s[0] as int * 0x100_0000_0000 + s[1] as int * 0x1_0000_0000
                + s[2] as int * 0x100_0000 + s[3] as int * 0x1_0000 + s[4] as int * 0x100
                + s[5] as int,
            i == 7 ==> n == s[0] as int * 0x1_0000_0000_0000 + s[1] as int * 0x100_0000_0000
                + s[2] as int * 0x1_0000_0000 + s[3] as int * 0x100_0000 + s[4] as int
                * 0x1_0000 + s[5] as int * 0x100 + s[6] as int,
            i == 8 ==> n == u64_from_be(s),
        decreases 8 - i,
    {
        let byte: u8 = bytes[at + i];
        assert(byte == s[i as int]);
        n = n * 256 + byte as u64;
        i = i + 1;
    }
    n
}

fn read_hash(bytes: &[u8], at: usize) -> (h: [u8; 32])
    requires
        at + 32 <= bytes@.len(),
    ensures
        h@ == bytes@.subrange(at as int, at + 32),
{
    let total: usize = bytes.len();
    let mut h: [u8; 32] = [0u8; 32];
    let mut i: usize = 0;
    while i < 32
        invariant
            i <= 32,
            at + 32 <= bytes@.len(),
            bytes@.len() == total,
            forall|k: int| 0 <= k < i ==> h@[k] == bytes@[at + k],
        decreases 32 - i,
    {
        h[i] = bytes[at + i];
        i = i + 1;
    }
    assert(h@ =~= bytes@.subrange(at as int, at + 32));
    h
}

impl Journal {
    /// Lays the journal out as bytes.
    ///
    /// The length field has two bytes. A verification result of 65536 bytes
    /// or more is written in full behind a length field that holds the length
    /// modulo 65536; such a journal does not decode to what was encoded.
    pub fn encode(&self) -> (out: Vec<u8>)
        ensures
            out@ == journal_bytes(self@),
            out@.len() == 2 + self.verified_output@.len() + 200,
    {
        let len: usize = self.verified_output.len();
        let field: u16 = (len % 0x1_0000) as u16;
        let mut out: Vec<u8> = Vec::new();
        out.push((field / 256) as u8);
        out.push((field % 256) as u8);
        assert(out@ =~= u16_be(length_field(self.verified_output@.len())));
        out.extend_from_slice(self.verified_output.as_slice());
        push_u64_be(&mut out, self.timestamp);
        out.extend_from_slice(self.hashes.tcb_info.as_slice());
        out.extend_from_slice(self.hashes.enclave_identity.as_slice());
        out.extend_from_slice(self.hashes.root_ca.as_slice());
        out.extend_from_slice(self.hashes.tcb_signing.as_slice());
        out.extend_from_slice(self.hashes.root_ca_crl.as_slice());
        out.extend_from_slice(self.hashes.platform_crl.as_slice());
        assert(out@ =~= journal_bytes(self@));
        out
    }

    /// Reads a journal back from bytes.
    ///
    /// Fails with `TruncatedJournal` where the buffer is shorter than the
    /// length field, the verification result that the field declares, and the
    /// 200-byte trailer together; succeeds on every other buffer. No byte
    /// outside the buffer is read, and bytes after the trailer are ignored.
    pub fn decode(bytes: &[u8]) -> (r: Result<Journal, TdxError>)
        ensures
            match r {
                Ok(j) => journal_of_bytes(bytes@) == Some(j@),
                Err(e) => e@ == ErrorView::TruncatedJournal && journal_of_bytes(bytes@) is None,
            },
    {
        if bytes.len() < 2 {
            return Err(TdxError::TruncatedJournal);
        }
        let l: usize = bytes[0] as usize * 256 + bytes[1] as usize;
        if bytes.len() - 2 < l || bytes.len() - 2 - l < TRAILER_LEN {
            return Err(TdxError::TruncatedJournal);
        }
        let t: usize = 2 + l;
        let verified_output = slice_to_vec(slice_subrange(bytes, 2, t));
        let timestamp = read_u64_be(bytes, t);
        let hashes = CollateralHashes {
            tcb_info: read_hash(bytes, t + 8),
            enclave_identity: read_hash(bytes, t + 40),
            root_ca: read_hash(bytes, t + 72),
            tcb_signing: read_hash(bytes, t + 104),
            root_ca_crl: read_hash(bytes, t + 136),
            platform_crl: read_hash(bytes, t + 168),
        };
        Ok(Journal { verified_output, timestamp, hashes })
    }
}

} // verus!
