//! A report that has been acquired, kept for a caller who fetches it in
//! pieces: first its length, then its bytes into a buffer of that length,
//! and the same for the variable data that came with it.

use vstd::prelude::*;
use crate::device::RawReport;
use crate::error::{ErrorView, TdxError};

verus! {

/// What an acquisition has yielded, held until the caller has copied it out.
#[derive(Debug, Clone, PartialEq, Eq)]
pub struct ReportSession {
    report: Vec<u8>,
    var_data: Vec<u8>,
}

/// What a caller hears who asks for bytes that the session does not hold,
/// or offers a buffer that is too short for them.
pub open spec fn nothing_to_copy() -> ErrorView {
    ErrorView::InvalidRequest("nothing to copy, or the buffer is too short"@)
}

/// The outcome of copying `data` into a buffer that held `before`: the
/// buffer begins with `data` and is otherwise as it was.
pub open spec fn copied_into(before: Seq<u8>, data: Seq<u8>) -> Seq<u8> {
    data + before.subrange(data.len() as int, before.len() as int)
}

fn copy_into(data: &Vec<u8>, buf: &mut [u8]) -> (r: Result<usize, TdxError>)
    ensures
        0 < data@.len() <= old(buf)@.len() ==> r == Ok::<usize, TdxError>(data@.len() as usize)
            && final(buf)@ == copied_into(old(buf)@, data@),
        !(0 < data@.len() <= old(buf)@.len()) ==> (r matches Err(e) && e@ == nothing_to_copy())
            && final(buf)@ == old(buf)@,
{
    let n: usize = data.len();
    if n == 0 || buf.len() < n {
        return Err(
            TdxError::InvalidRequest("nothing to copy, or the buffer is too short".to_owned()),
        );
    }
    let mut i: usize = 0;
    while i < n
        invariant
            i <= n,
            n == data@.len(),
            n <= buf@.len(),
            buf@.len() == old(buf)@.len(),
            forall|k: int| 0 <= k < i ==> buf@[k] == data@[k],
            forall|k: int| i <= k < buf@.len() ==> buf@[k] == old(buf)@[k],
        decreases n - i,
    {
        buf[i] = data[i];
        i = i + 1;
    }
    assert(buf@ =~= copied_into(old(buf)@, data@));
    Ok(n)
}

impl ReportSession {
    /// The bytes of the report.
    pub closed spec fn report(&self) -> Seq<u8> {
        self.report@
    }

    /// The variable data; empty where none came with the report.
    pub closed spec fn var_data(&self) -> Seq<u8> {
        self.var_data@
    }

    /// Keeps what an acquisition has yielded, and tells the length of the
    /// report, so that the caller can make room for it.
    pub fn new(raw: RawReport) -> (r: (ReportSession, usize))
        ensures
            r.0.report() == raw.report@,
            r.0.var_data() == match raw.var_data {
                Some(data) => data@,
                None => Seq::<u8>::empty(),
            },
            r.1 == raw.report@.len(),
    {
        let report_len = raw.report.len();
        let var_data = match raw.var_data {
            Some(data) => data,
            None => Vec::new(),
        };
        (ReportSession { report: raw.report, var_data }, report_len)
    }

    /// The length of the report.
    pub fn report_len(&self) -> (n: usize)
        ensures
            n == self.report().len(),
    {
        self.report.len()
    }

    /// The length of the variable data; 0 where there is none.
    pub fn var_data_len(&self) -> (n: usize)
        ensures
            n == self.var_data().len(),
    {
        self.var_data.len()
    }

    /// Copies the report to the beginning of `buf` and tells its length.
    ///
    /// Fails with `InvalidRequest`, and leaves `buf` as it is, where the
    /// report is empty or longer than `buf`.
    pub fn copy_report(&self, buf: &mut [u8]) -> (r: Result<usize, TdxError>)
        ensures
            0 < self.report().len() <= old(buf)@.len() ==> r == Ok::<usize, TdxError>(
                self.report().len() as usize,
            ) && final(buf)@ == copied_into(old(buf)@, self.report()),
            !(0 < self.report().len() <= old(buf)@.len()) ==> (r matches Err(e) && e@
                == nothing_to_copy()) && final(buf)@ == old(buf)@,
    {
        copy_into(&self.report, buf)
    }

    /// Copies the variable data to the beginning of `buf` and tells its length.
    ///
    /// Fails with `InvalidRequest`, and leaves `buf` as it is, where there
    /// is no variable data or it is longer than `buf`.
    pub fn copy_var_data(&self, buf: &mut [u8]) -> (r: Result<usize, TdxError>)
        ensures
            0 < self.var_data().len() <= old(buf)@.len() ==> r == Ok::<usize, TdxError>(
                self.var_data().len() as usize,
            ) && final(buf)@ == copied_into(old(buf)@, self.var_data()),
            !(0 < self.var_data().len() <= old(buf)@.len()) ==> (r matches Err(e) && e@
                == nothing_to_copy()) && final(buf)@ == old(buf)@,
    {
        copy_into(&self.var_data, buf)
    }
}

} // verus!
