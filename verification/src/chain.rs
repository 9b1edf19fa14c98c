//! The certificate chain that a quote carries in its signature section:
//! PEM blocks one after the other, the platform certificate first.

use vstd::prelude::*;
use vstd::slice::slice_subrange;

verus! {

/// The line that opens a PEM certificate, `-----BEGIN CERTIFICATE-----`.
pub open spec fn begin_marker() -> Seq<u8> {
    seq![
        0x2du8, 0x2d, 0x2d, 0x2d, 0x2d, 0x42, 0x45, 0x47, 0x49, 0x4e, 0x20, 0x43, 0x45, 0x52,
        0x54, 0x49, 0x46, 0x49, 0x43, 0x41, 0x54, 0x45, 0x2d, 0x2d, 0x2d, 0x2d, 0x2d,
    ]
}

/// The line that closes a PEM certificate, `-----END CERTIFICATE-----`.
pub open spec fn end_marker() -> Seq<u8> {
    seq![
        0x2du8, 0x2d, 0x2d, 0x2d, 0x2d, 0x45, 0x4e, 0x44, 0x20, 0x43, 0x45, 0x52, 0x54, 0x49,
        0x46, 0x49, 0x43, 0x41, 0x54, 0x45, 0x2d, 0x2d, 0x2d, 0x2d, 0x2d,
    ]
}

/// Whether `pat` stands in `data` at position `at`.
pub open spec fn occurs_at(data: Seq<u8>, pat: Seq<u8>, at: int) -> bool {
    0 <= at && at + pat.len() <= data.len() && data.subrange(at, at + pat.len()) == pat
}

/// The least position at or after `from` at which `pat` stands in `data`.
pub open spec fn find_from(data: Seq<u8>, pat: Seq<u8>, from: int) -> Option<int>
    decreases data.len() - from,
{
    if from < 0 || from + pat.len() > data.len() {
        None
    } else if data.subrange(from, from + pat.len()) == pat {
        Some(from)
    } else if from < data.len() {
        find_from(data, pat, from + 1)
    } else {
        None
    }
}

/// The certificates that stand in `data` at or after `from`, each as the
/// position of its opening marker and the position after its closing marker.
/// A certificate starts at the first opening marker and ends with the first
/// closing marker after it; the search then goes on behind it. An opening
/// marker that no closing marker follows ends the search.
pub open spec fn ranges_from(data: Seq<u8>, from: int) -> Seq<(int, int)>
    decreases data.len() - from,
{
    match find_from(data, begin_marker(), from) {
        None => Seq::empty(),
        Some(start) => match find_from(data, end_marker(), start + 27) {
            None => Seq::empty(),
            Some(close) => if from < close + 25 <= data.len() {
                seq![(start, close + 25)] + ranges_from(data, close + 25)
            } else {
                Seq::empty()
            },
        },
    }
}

/// The certificates that stand in `data`, in the order in which they stand there.
pub open spec fn certificate_ranges(data: Seq<u8>) -> Seq<(int, int)> {
    ranges_from(data, 0)
}

/// Where `find_from` finds the pattern, it stands there, at or after `from`,
/// and nowhere between `from` and there; where it finds none, the pattern
/// stands nowhere at or after `from`.
pub proof fn lemma_find_from(data: Seq<u8>, pat: Seq<u8>, from: int)
    requires
        0 <= from,
    ensures
        match find_from(data, pat, from) {
            Some(at) => {
                &&& from <= at
                &&& occurs_at(data, pat, at)
                &&& forall|k: int| from <= k < at ==> !#[trigger] occurs_at(data, pat, k)
            },
            None => forall|k: int| from <= k ==> !#[trigger] occurs_at(data, pat, k),
        },
    decreases data.len() - from,
{
    if from + pat.len() <= data.len() && data.subrange(from, from + pat.len()) != pat {
        if from < data.len() {
            lemma_find_from(data, pat, from + 1);
        } else {
            assert(data.subrange(from, from + pat.len()) =~= pat);
        }
    }
}

/// Every certificate that `ranges_from` yields lies inside the data behind
/// `from`, opens with the opening marker and closes with the closing marker,
/// and each begins where the one before it has ended, or later.
pub proof fn lemma_ranges_from(data: Seq<u8>, from: int)
    requires
        0 <= from,
    ensures
        forall|i: int|
            #![trigger ranges_from(data, from)[i]]
            0 <= i < ranges_from(data, from).len() ==> {
                let r = ranges_from(data, from)[i];
                &&& from <= r.0
                &&& r.0 + 52 <= r.1 <= data.len()
                &&& data.subrange(r.0, r.0 + 27) == begin_marker()
                &&& data.subrange(r.1 - 25, r.1) == end_marker()
            },
        forall|i: int, j: int|
            #![trigger ranges_from(data, from)[i], ranges_from(data, from)[j]]
            0 <= i < j < ranges_from(data, from).len() ==> ranges_from(data, from)[i].1
                <= ranges_from(data, from)[j].0,
    decreases data.len() - from,
{
    lemma_find_from(data, begin_marker(), from);
    match find_from(data, begin_marker(), from) {
        None => {},
        Some(start) => {
            lemma_find_from(data, end_marker(), start + 27);
            match find_from(data, end_marker(), start + 27) {
                None => {},
                Some(close) => {
                    let rest = ranges_from(data, close + 25);
                    let all = ranges_from(data, from);
                    lemma_ranges_from(data, close + 25);
                    assert(all == seq![(start, close + 25)] + rest);
                    assert forall|i: int| 0 <= i < all.len() implies {
                        let r = #[trigger] all[i];
                        &&& from <= r.0
                        &&& r.0 + 52 <= r.1 <= data.len()
                        &&& data.subrange(r.0, r.0 + 27) == begin_marker()
                        &&& data.subrange(r.1 - 25, r.1) == end_marker()
                    } by {
                        if i > 0 {
                            assert(all[i] == rest[i - 1]);
                        }
                    }
                    assert forall|i: int, j: int| 0 <= i < j < all.len() implies (#[trigger] all[i]).1
                        <= (#[trigger] all[j]).0 by {
                        assert(all[j] == rest[j - 1]);
                        if i > 0 {
                            assert(all[i] == rest[i - 1]);
                        }
                    }
                },
            }
        },
    }
}

fn begin_marker_bytes() -> (m: [u8; 27])
    ensures
        m@ == begin_marker(),
{
    let m: [u8; 27] = [
        0x2d, 0x2d, 0x2d, 0x2d, 0x2d, 0x42, 0x45, 0x47, 0x49, 0x4e, 0x20, 0x43, 0x45, 0x52,
        0x54, 0x49, 0x46, 0x49, 0x43, 0x41, 0x54, 0x45, 0x2d, 0x2d, 0x2d, 0x2d, 0x2d,
    ];
    assert(m@ =~= begin_marker());
    m
}

fn end_marker_bytes() -> (m: [u8; 25])
    ensures
        m@ == end_marker(),
{
    let m: [u8; 25] = [
        0x2d, 0x2d, 0x2d, 0x2d, 0x2d, 0x45, 0x4e, 0x44, 0x20, 0x43, 0x45, 0x52, 0x54, 0x49,
        0x46, 0x49, 0x43, 0x41, 0x54, 0x45, 0x2d, 0x2d, 0x2d, 0x2d, 0x2d,
    ];
    assert(m@ =~= end_marker());
    m
}

/// Whether `pat` stands in `data` at position `at`.
fn stands_at(data: &[u8], pat: &[u8], at: usize) -> (r: bool)
    requires
        at + pat@.len() <= data@.len(),
    ensures
        r == (data@.subrange(at as int, at + pat@.len()) == pat@),
{
    let total: usize = data.len();
    let n: usize = pat.len();
    let mut i: usize = 0;
    while i < n
        invariant
            i <= n,
            n == pat@.len(),
            total == data@.len(),
            at + n <= total,
            forall|k: int| 0 <= k < i ==> data@[at + k] == pat@[k],
        decreases n - i,
    {
        if data[at + i] != pat[i] {
            assert(data@.subrange(at as int, at + n)[i as int] != pat@[i as int]);
            return false;
        }
        i = i + 1;
    }
    assert(data@.subrange(at as int, at + n) =~= pat@);
    true
}

/// The least position at or after `from` at which `pat` stands in `data`.
fn find_marker(data: &[u8], pat: &[u8], from: usize) -> (r: Option<usize>)
    requires
        pat@.len() > 0,
    ensures
        match r {
            Some(at) => find_from(data@, pat@, from as int) == Some(at as int),
            None => find_from(data@, pat@, from as int) is None,
        },
{
    let total: usize = data.len();
    let n: usize = pat.len();
    if n > total {
        return None;
    }
    let last: usize = total - n;
    let mut i: usize = from;
    while i <= last
        invariant
            from <= i,
            0 < n == pat@.len(),
            total == data@.len(),
            last == total - n,
            find_from(data@, pat@, from as int) == find_from(data@, pat@, i as int),
        decreases total - i,
    {
        if stands_at(data, pat, i) {
            return Some(i);
        }
        i = i + 1;
    }
    None
}

/// Locates the certificates in the certificate data of a quote.
///
/// Each is given as the position of its opening marker and the position
/// after its closing marker, so that the bytes between the two are one PEM
/// block. They come in the order in which they stand in the data and do not
/// overlap.
pub fn find_certificate_ranges(cert_data: &[u8]) -> (ranges: Vec<(usize, usize)>)
    ensures
        ranges@.len() == certificate_ranges(cert_data@).len(),
        forall|i: int|
            0 <= i < ranges@.len() ==> (#[trigger] ranges@[i]).0 == certificate_ranges(
                cert_data@,
            )[i].0 && ranges@[i].1 == certificate_ranges(cert_data@)[i].1,
        forall|i: int|
            0 <= i < ranges@.len() ==> (#[trigger] ranges@[i]).0 + 52 <= ranges@[i].1
                <= cert_data@.len(),
{
    let total: usize = cert_data.len();
    let begin = begin_marker_bytes();
    let end = end_marker_bytes();
    let mut ranges: Vec<(usize, usize)> = Vec::new();
    let mut pos: usize = 0;
    let ghost all = certificate_ranges(cert_data@);
    proof {
        lemma_ranges_from(cert_data@, 0);
    }
    loop
        invariant
            pos <= total,
            total == cert_data@.len(),
            begin@ == begin_marker(),
            end@ == end_marker(),
            all == certificate_ranges(cert_data@),
            ranges@.len() <= all.len(),
            all == all.subrange(0, ranges@.len() as int) + ranges_from(cert_data@, pos as int),
            forall|i: int|
                0 <= i < ranges@.len() ==> (#[trigger] ranges@[i]).0 == all[i].0 && ranges@[i].1
                    == all[i].1,
        ensures
            ranges@.len() == all.len(),
            forall|i: int|
                0 <= i < ranges@.len() ==> (#[trigger] ranges@[i]).0 == all[i].0 && ranges@[i].1
                    == all[i].1,
        decreases total - pos,
    {
        let ghost done = ranges@.len() as int;
        let ghost tail = ranges_from(cert_data@, pos as int);
        proof {
            lemma_find_from(cert_data@, begin_marker(), pos as int);
            assert(all.len() == done + tail.len());
        }
        let start = match find_marker(cert_data, begin.as_slice(), pos) {
            Some(start) => start,
            None => {
                assert(tail.len() == 0);
                break ;
            },
        };
        proof {
            lemma_find_from(cert_data@, end_marker(), start + 27);
        }
        let close = match find_marker(cert_data, end.as_slice(), start + 27) {
            Some(close) => close,
            None => {
                assert(tail.len() == 0);
                break ;
            },
        };
        proof {
            let rest = ranges_from(cert_data@, close + 25);
            assert(tail == seq![(start as int, close + 25)] + rest);
            assert(all[done] == tail[0]);
            assert(all.subrange(0, done + 1) =~= all.subrange(0, done).push(tail[0]));
            assert(all =~= all.subrange(0, done + 1) + rest);
        }
        ranges.push((start, close + 25));
        pos = close + 25;
    }
    proof {
        assert forall|i: int| 0 <= i < ranges@.len() implies (#[trigger] ranges@[i]).0 + 52
            <= ranges@[i].1 <= cert_data@.len() by {
            let r = all[i];
        }
    }
    ranges
}

/// The certificates embedded in the signature section of a quote: the
/// certificate data as the quote holds it, and where each certificate stands
/// in it. The platform certificate comes first, then the certificate of the
/// intermediate authority, then that of the root.
pub struct QuoteCertificateChain {
    data: Vec<u8>,
    ranges: Vec<(usize, usize)>,
}

impl QuoteCertificateChain {
    /// The ranges are those of the certificates in the data.
    #[verifier::type_invariant]
    pub closed spec fn wf(&self) -> bool {
        &&& self.ranges@.len() == certificate_ranges(self.data@).len()
        &&& forall|i: int|
            0 <= i < self.ranges@.len() ==> (#[trigger] self.ranges@[i]).0 == certificate_ranges(
                self.data@,
            )[i].0 && self.ranges@[i].1 == certificate_ranges(self.data@)[i].1
        &&& forall|i: int|
            0 <= i < self.ranges@.len() ==> (#[trigger] self.ranges@[i]).0 <= self.ranges@[i].1
                <= self.data@.len()
    }

    /// The certificate data.
    pub closed spec fn data(&self) -> Seq<u8> {
        self.data@
    }

    /// The certificates, each as the PEM block that holds it.
    pub open spec fn certificates(&self) -> Seq<Seq<u8>> {
        pem_blocks(self.data())
    }

    /// Locates the certificates in the certificate data of a quote.
    pub fn new(cert_data: &[u8]) -> (chain: QuoteCertificateChain)
        ensures
            chain.data() == cert_data@,
    {
        let ranges = find_certificate_ranges(cert_data);
        let data = slice_to_vec_bytes(cert_data);
        QuoteCertificateChain { data, ranges }
    }

    /// The number of certificates.
    pub fn len(&self) -> (n: usize)
        ensures
            n == self.certificates().len(),
    {
        proof {
            use_type_invariant(self);
        }
        self.ranges.len()
    }

    /// The certificate at `index`, as the PEM block that holds it; `None`
    /// where there are not that many. Index 0 is the platform certificate.
    pub fn certificate(&self, index: usize) -> (r: Option<&[u8]>)
        ensures
            match r {
                Some(pem) => index < self.certificates().len() && pem@
                    == self.certificates()[index as int],
                None => index >= self.certificates().len(),
            },
    {
        proof {
            use_type_invariant(self);
        }
        if index < self.ranges.len() {
            let (start, end) = self.ranges[index];
            Some(slice_subrange(self.data.as_slice(), start, end))
        } else {
            None
        }
    }
}

/// The PEM blocks of the certificates that stand in `data`.
pub open spec fn pem_blocks(data: Seq<u8>) -> Seq<Seq<u8>> {
    Seq::new(
        certificate_ranges(data).len(),
        |i: int| data.subrange(certificate_ranges(data)[i].0, certificate_ranges(data)[i].1),
    )
}

fn slice_to_vec_bytes(bytes: &[u8]) -> (v: Vec<u8>)
    ensures
        v@ == bytes@,
{
    vstd::slice::slice_to_vec(bytes)
}

} // verus!
