use tdx::device::RawReport;
use tdx::error::TdxError;
use tdx::session::ReportSession;

fn refusal() -> TdxError {
    TdxError::InvalidRequest("nothing to copy, or the buffer is too short".to_string())
}

#[test]
fn session_tells_the_length_of_the_report() {
    let raw = RawReport { report: vec![1, 2, 3, 4, 5], var_data: Some(vec![6, 7]), report_data: None };
    let (session, len) = ReportSession::new(raw);
    assert_eq!(len, 5);
    assert_eq!(session.report_len(), 5);
    assert_eq!(session.var_data_len(), 2);
}

#[test]
fn session_without_variable_data() {
    let (session, len) = ReportSession::new(RawReport { report: vec![9; 3], var_data: None, report_data: None });
    assert_eq!(len, 3);
    assert_eq!(session.var_data_len(), 0);
    let mut buf = [0u8; 8];
    assert_eq!(session.copy_var_data(&mut buf), Err(refusal()));
    assert_eq!(buf, [0u8; 8]);
}

#[test]
fn report_is_copied_to_the_beginning_of_the_buffer() {
    let (session, len) = ReportSession::new(RawReport { report: vec![1, 2, 3], var_data: None, report_data: None });
    let mut exact = vec![0xeeu8; len];
    assert_eq!(session.copy_report(&mut exact), Ok(3));
    assert_eq!(exact, vec![1, 2, 3]);
    let mut longer = [0xeeu8; 5];
    assert_eq!(session.copy_report(&mut longer), Ok(3));
    assert_eq!(longer, [1, 2, 3, 0xee, 0xee]);
}

#[test]
fn variable_data_is_copied_to_the_beginning_of_the_buffer() {
    let raw = RawReport { report: vec![1], var_data: Some(vec![0xa, 0xb]), report_data: None };
    let (session, _) = ReportSession::new(raw);
    let mut buf = [0u8; 4];
    assert_eq!(session.copy_var_data(&mut buf), Ok(2));
    assert_eq!(buf, [0xa, 0xb, 0, 0]);
}

#[test]
fn buffer_that_is_too_short_is_left_alone() {
    let (session, _) = ReportSession::new(RawReport { report: vec![1, 2, 3], var_data: None, report_data: None });
    let mut buf = [7u8; 2];
    assert_eq!(session.copy_report(&mut buf), Err(refusal()));
    assert_eq!(buf, [7, 7]);
    assert_eq!(session.copy_report(&mut []), Err(refusal()));
}

#[test]
fn empty_report_is_not_copied() {
    let (session, len) = ReportSession::new(RawReport { report: vec![], var_data: Some(vec![]), report_data: None });
    assert_eq!(len, 0);
    let mut buf = [7u8; 2];
    assert_eq!(session.copy_report(&mut buf), Err(refusal()));
    assert_eq!(session.copy_var_data(&mut buf), Err(refusal()));
    assert_eq!(buf, [7, 7]);
}
