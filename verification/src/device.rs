//! Acquiring a quote from the report device of the guest.
//!
//! The device and the metadata service are reached by the caller. This
//! module decides what is asked of them and what is made of their answers:
//! [`Device::step`] takes the state of an acquisition and what has just
//! happened, and gives the next state and what to do next.

use vstd::prelude::*;
use crate::encoding::{
    base64url, base64url_decode, base64url_decoded, base64url_encode, random_bytes,
};
use crate::error::{ErrorView, TdxError};

verus! {

/// Where the metadata service turns a report into a quote.
pub const IMDS_QUOTE_URL: &'static str = "http://169.254.169.254/acc/tdquote";

/// The kinds of report device.
#[derive(Debug, Clone, Copy, PartialEq, Eq, Structural)]
pub enum DeviceKind {
    /// A virtual TPM. Its report is not yet a quote, and it binds data of
    /// its own into the report.
    Tpm,
    /// The configfs interface of the kernel.
    ConfigFs,
    /// The older device-file interface.
    Legacy,
    /// A device that only pretends.
    Mock,
}

/// What the caller may ask for when a report is requested.
#[derive(Debug, Clone, Copy, PartialEq, Eq)]
pub struct DeviceOptions {
    /// 64 bytes to bind into the report. Not for a TPM, which binds its own.
    /// Where `None` is given for another device, random bytes are taken.
    pub report_data: Option<[u8; 64]>,
}

/// What is asked of the report device.
#[derive(Debug, Clone, Copy, PartialEq, Eq)]
pub struct ReportRequest {
    pub report_data: Option<[u8; 64]>,
    pub vmpl: Option<u32>,
}

/// What the report device answers.
#[derive(Debug, Clone, PartialEq, Eq)]
pub struct ReportResponse {
    pub report: Vec<u8>,
    pub var_data: Option<Vec<u8>>,
}

/// A quote as it was acquired: its bytes, the variable data that some
/// cloud-hosted devices hand out with it, and the report data that the
/// device was asked to bind into it. A quote from a TPM has no report data
/// of the caller's.
#[derive(Debug, Clone, PartialEq, Eq)]
pub struct RawReport {
    pub report: Vec<u8>,
    pub var_data: Option<Vec<u8>>,
    pub report_data: Option<[u8; 64]>,
}

/// How far an acquisition has come.
#[derive(Debug, Clone, PartialEq, Eq)]
pub enum AcquireState {
    /// Nothing has been asked yet.
    Start,
    /// The device has been asked for a report, with this report data.
    AwaitingReport { report_data: Option<[u8; 64]> },
    /// The metadata service has been asked for a quote; the variable data
    /// of the device's answer is kept for the end.
    AwaitingQuote { var_data: Option<Vec<u8>> },
    /// The acquisition has ended, with a quote or with a failure.
    Finished,
}

/// What has happened since the last step.
#[derive(Debug, Clone, PartialEq, Eq)]
pub enum AcquireEvent {
    /// The acquisition is to begin.
    Begin,
    /// The device has answered.
    ReportReady(ReportResponse),
    /// The metadata service has answered; this is the `quote` field of its answer.
    QuoteReady(String),
    /// The device or the metadata service has failed.
    Failed(TdxError),
}

/// What the caller is to do next.
#[derive(Debug, Clone, PartialEq, Eq)]
pub enum AcquireAction {
    /// Ask the device for a report.
    RequestReport(ReportRequest),
    /// Post this text to the metadata service as the `report` field.
    ConvertReport(String),
    /// Hand the quote to whoever asked for it.
    Deliver(RawReport),
    /// Give up with this failure.
    Abort(TdxError),
}

/// The bytes of data that may be missing.
pub open spec fn bytes_of(data: Option<Vec<u8>>) -> Option<Seq<u8>> {
    match data {
        Some(v) => Some(v@),
        None => None,
    }
}

/// Whether `request` is what is to be asked of a device of kind `kind` for a
/// caller who wished for `wished`: nothing for a TPM, the caller's bytes
/// where there are any, and some 64 bytes where there are none.
pub open spec fn is_request_for(
    kind: DeviceKind,
    wished: Option<[u8; 64]>,
    request: ReportRequest,
) -> bool {
    &&& request.vmpl is None
    &&& kind == DeviceKind::Tpm ==> request.report_data is None
    &&& kind != DeviceKind::Tpm ==> request.report_data is Some
    &&& kind != DeviceKind::Tpm && wished is Some ==> request.report_data == wished
}

/// What a caller hears who gave report data to a TPM.
pub open spec fn tpm_report_data_refused() -> ErrorView {
    ErrorView::InvalidRequest("report_data cannot be provided for TPM!"@)
}

/// What a caller hears who wants to use a mock device.
pub open spec fn mock_refused() -> ErrorView {
    ErrorView::InvalidRequest("Mock device is not supported!"@)
}

/// What a caller hears whose quote is not base64 as the metadata service writes it.
pub open spec fn quote_text_refused() -> ErrorView {
    ErrorView::IO("quote is not base64url"@)
}

/// Whether `action` delivers a quote of these bytes, with this variable
/// data and this report data.
pub open spec fn delivers(
    action: AcquireAction,
    report: Seq<u8>,
    var_data: Option<Seq<u8>>,
    report_data: Option<[u8; 64]>,
) -> bool {
    &&& action matches AcquireAction::Deliver(raw)
    &&& raw.report@ == report
    &&& bytes_of(raw.var_data) == var_data
    &&& raw.report_data == report_data
}

/// Whether `action` gives up with this failure.
pub open spec fn aborts(action: AcquireAction, failure: ErrorView) -> bool {
    action matches AcquireAction::Abort(e) && e@ == failure
}

/// Generates 64 random bytes to bind into a report. There is always a result.
pub fn generate_random_data() -> (r: Option<[u8; 64]>)
    ensures
        r is Some,
{
    Some(random_bytes())
}

/// Settles what is asked of a device of kind `kind` for a caller who wishes
/// the report data `wished`.
///
/// A TPM takes no report data: `Some` fails with `InvalidRequest`, and `None`
/// asks for a report with none. Every other device is asked with the
/// caller's bytes, or with 64 random bytes where the caller gave none; for
/// those devices this never fails.
pub fn report_request(kind: DeviceKind, wished: Option<[u8; 64]>) -> (r: Result<
    ReportRequest,
    TdxError,
>)
    ensures
        kind == DeviceKind::Tpm && wished is Some ==> (r matches Err(e) && e@
            == tpm_report_data_refused()),
        !(kind == DeviceKind::Tpm && wished is Some) ==> (r matches Ok(request) && is_request_for(
            kind,
            wished,
            request,
        )),
{
    let report_data = match kind {
        DeviceKind::Tpm => {
            if wished.is_some() {
                return Err(
                    TdxError::InvalidRequest("report_data cannot be provided for TPM!".to_owned()),
                );
            }
            None
        },
        _ => match wished {
            Some(data) => Some(data),
            None => generate_random_data(),
        },
    };
    Ok(ReportRequest { report_data, vmpl: None })
}

/// A report device of a known kind, with the caller's wishes.
#[derive(Debug, Clone, Copy, PartialEq, Eq)]
pub struct Device {
    options: DeviceOptions,
    kind: DeviceKind,
}

impl Device {
    /// The kind of the device.
    pub closed spec fn kind(&self) -> DeviceKind {
        self.kind
    }

    /// The report data that the caller wished for.
    pub closed spec fn wished(&self) -> Option<[u8; 64]> {
        self.options.report_data
    }

    /// A device of the kind that was found, with no wishes.
    ///
    /// Fails with `InvalidRequest` for a mock device, and for no other.
    pub fn default(kind: DeviceKind) -> (r: Result<Device, TdxError>)
        ensures
            kind == DeviceKind::Mock ==> (r matches Err(e) && e@ == mock_refused()),
            kind != DeviceKind::Mock ==> (r matches Ok(device) && device.kind() == kind
                && device.wished() is None),
    {
        let options = DeviceOptions { report_data: None };
        Device::new(options, kind)
    }

    /// A device of the kind that was found, with the caller's wishes.
    ///
    /// Fails with `InvalidRequest` for a mock device, and for no other.
    pub fn new(options: DeviceOptions, kind: DeviceKind) -> (r: Result<Device, TdxError>)
        ensures
            kind == DeviceKind::Mock ==> (r matches Err(e) && e@ == mock_refused()),
            kind != DeviceKind::Mock ==> (r matches Ok(device) && device.kind() == kind
                && device.wished() == options.report_data),
    {
        match kind {
            DeviceKind::Mock => Err(
                TdxError::InvalidRequest("Mock device is not supported!".to_owned()),
            ),
            _ => Ok(Device { options, kind }),
        }
    }

    /// The kind of the device.
    pub fn device_kind(&self) -> (kind: DeviceKind)
        ensures
            kind == self.kind(),
    {
        self.kind
    }

    /// What a step may lead to, for every state and event.
    ///
    /// - At the start, `Begin` asks the device for a report, as
    ///   [`report_request`] settles it, or gives up where that fails.
    /// - While the device is awaited, its answer is delivered as the quote,
    ///   with the report data that was asked for; from a TPM it is no quote
    ///   yet, and is sent on to the metadata service in base64, while its
    ///   variable data is kept.
    /// - While the metadata service is awaited, its answer is decoded and
    ///   delivered with the variable data that was kept; an answer that is
    ///   no base64 fails with `IO`.
    /// - A failure of the device or the service ends the acquisition with
    ///   that failure.
    /// - Anything else, an event that the state does not await, ends it
    ///   with `Unknown`.
    ///
    /// Every step but the two that ask something ends the acquisition.
    pub open spec fn step_allows(
        &self,
        state: AcquireState,
        event: AcquireEvent,
        next: AcquireState,
        action: AcquireAction,
    ) -> bool {
        match (state, event) {
            (AcquireState::Start, AcquireEvent::Begin) => {
                if self.kind() == DeviceKind::Tpm && self.wished() is Some {
                    next is Finished && aborts(action, tpm_report_data_refused())
                } else {
                    &&& action matches AcquireAction::RequestReport(request)
                    &&& is_request_for(self.kind(), self.wished(), request)
                    &&& next == (AcquireState::AwaitingReport { report_data: request.report_data })
                }
            },
            (
                AcquireState::AwaitingReport { report_data },
                AcquireEvent::ReportReady(response),
            ) => {
                if self.kind() == DeviceKind::Tpm {
                    &&& next matches AcquireState::AwaitingQuote { var_data }
                    &&& bytes_of(var_data) == bytes_of(response.var_data)
                    &&& action matches AcquireAction::ConvertReport(text)
                    &&& text@ == base64url(response.report@)
                } else {
                    next is Finished && delivers(
                        action,
                        response.report@,
                        bytes_of(response.var_data),
                        report_data,
                    )
                }
            },
            (AcquireState::AwaitingQuote { var_data }, AcquireEvent::QuoteReady(text)) => {
                &&& next is Finished
                &&& match base64url_decoded(text@) {
                    Some(quote) => delivers(action, quote, bytes_of(var_data), None),
                    None => aborts(action, quote_text_refused()),
                }
            },
            (AcquireState::Start, AcquireEvent::Failed(e)) => next is Finished && aborts(
                action,
                e@,
            ),
            (AcquireState::AwaitingReport { .. }, AcquireEvent::Failed(e)) => next is Finished
                && aborts(action, e@),
            (AcquireState::AwaitingQuote { .. }, AcquireEvent::Failed(e)) => next is Finished
                && aborts(action, e@),
            _ => next is Finished && aborts(action, ErrorView::Unknown),
        }
    }

    /// Takes one step of an acquisition: from the state it is in and what
    /// has just happened to the state it is in next and what to do next.
    pub fn step(&self, state: AcquireState, event: AcquireEvent) -> (r: (
        AcquireState,
        AcquireAction,
    ))
        ensures
            self.step_allows(state, event, r.0, r.1),
    {
        match (state, event) {
            (AcquireState::Start, AcquireEvent::Begin) => {
                match report_request(self.kind, self.options.report_data) {
                    Ok(request) => (
                        AcquireState::AwaitingReport { report_data: request.report_data },
                        AcquireAction::RequestReport(request),
                    ),
                    Err(e) => (AcquireState::Finished, AcquireAction::Abort(e)),
                }
            },
            (
                AcquireState::AwaitingReport { report_data },
                AcquireEvent::ReportReady(response),
            ) => {
                match self.kind {
                    DeviceKind::Tpm => {
                        let text = base64url_encode(response.report.as_slice());
                        (
                            AcquireState::AwaitingQuote { var_data: response.var_data },
                            AcquireAction::ConvertReport(text),
                        )
                    },
                    _ => (
                        AcquireState::Finished,
                        AcquireAction::Deliver(
                            RawReport {
                                report: response.report,
                                var_data: response.var_data,
                                report_data,
                            },
                        ),
                    ),
                }
            },
            (AcquireState::AwaitingQuote { var_data }, AcquireEvent::QuoteReady(text)) => {
                match base64url_decode(text.as_str()) {
                    Some(report) => (
                        AcquireState::Finished,
                        AcquireAction::Deliver(RawReport { report, var_data, report_data: None }),
                    ),
                    None => (
                        AcquireState::Finished,
                        AcquireAction::Abort(TdxError::IO("quote is not base64url".to_owned())),
                    ),
                }
            },
            (AcquireState::Start, AcquireEvent::Failed(e)) => (
                AcquireState::Finished,
                AcquireAction::Abort(e),
            ),
            (AcquireState::AwaitingReport { .. }, AcquireEvent::Failed(e)) => (
                AcquireState::Finished,
                AcquireAction::Abort(e),
            ),
            (AcquireState::AwaitingQuote { .. }, AcquireEvent::Failed(e)) => (
                AcquireState::Finished,
                AcquireAction::Abort(e),
            ),
            _ => (AcquireState::Finished, AcquireAction::Abort(TdxError::Unknown)),
        }
    }
}

} // verus!
