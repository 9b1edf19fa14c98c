//! The entry points of the library for a guest that wants a quote and the
//! collateral to it.

use vstd::prelude::*;
use crate::collateral::CollateralBundle;
use crate::device::{
    is_request_for, mock_refused, tpm_report_data_refused, AcquireAction, AcquireEvent,
    AcquireState, Device, DeviceKind, DeviceOptions,
};
use crate::error::{ErrorView, TdxError};
use crate::orchestrator::{is_bundle_of, well_formed, Artifacts};

verus! {

/// The handle through which a guest uses the library.
#[derive(Debug, Clone, Copy, PartialEq, Eq)]
pub struct Tdx;

/// An acquisition that is under way: the device, how far the acquisition
/// has come, and what the caller is to do next. The caller does it and hands
/// the outcome to [`Device::step`], with the state, until a step delivers
/// the quote or gives up.
#[derive(Debug, Clone, PartialEq, Eq)]
pub struct Acquisition {
    pub device: Device,
    pub state: AcquireState,
    pub action: AcquireAction,
}

impl Tdx {
    pub fn new() -> (tdx: Tdx) {
        Tdx
    }

    /// Begins to retrieve a quote from a device of kind `kind`, with no wishes.
    ///
    /// Fails with `InvalidRequest` for a device that only pretends, and for
    /// no other; a TPM is asked for a report without report data, every
    /// other device with 64 random bytes.
    pub fn get_attestation_report_raw(&self, kind: DeviceKind) -> (r: Result<
        Acquisition,
        TdxError,
    >)
        ensures
            kind == DeviceKind::Mock ==> (r matches Err(e) && e@ == mock_refused()),
            kind != DeviceKind::Mock ==> (r matches Ok(begun) && {
                &&& begun.device.kind() == kind
                &&& begun.device.wished() is None
                &&& begun.state is AwaitingReport
                &&& begun.action matches AcquireAction::RequestReport(request)
                &&& is_request_for(kind, None, request)
            }),
    {
        let device = match Device::default(kind) {
            Ok(device) => device,
            Err(e) => {
                return Err(e);
            },
        };
        begin_acquisition(device)
    }

    /// Begins to retrieve a quote from a device of kind `kind`, with the
    /// caller's wishes.
    ///
    /// Fails with `InvalidRequest` for a device that only pretends, and for
    /// a TPM where report data is wished for, which a TPM does not take; it
    /// fails in no other case. The device is asked with the report data that
    /// was wished for, or with 64 random bytes where none was.
    pub fn get_attestation_report_raw_with_options(
        &self,
        options: DeviceOptions,
        kind: DeviceKind,
    ) -> (r: Result<Acquisition, TdxError>)
        ensures
            kind == DeviceKind::Mock ==> (r matches Err(e) && e@ == mock_refused()),
            kind == DeviceKind::Tpm && options.report_data is Some ==> (r matches Err(e) && e@
                == tpm_report_data_refused()),
            kind != DeviceKind::Mock && !(kind == DeviceKind::Tpm && options.report_data is Some)
                ==> (r matches Ok(begun) && {
                &&& begun.device.kind() == kind
                &&& begun.device.wished() == options.report_data
                &&& begun.state is AwaitingReport
                &&& begun.action matches AcquireAction::RequestReport(request)
                &&& is_request_for(kind, options.report_data, request)
            }),
    {
        let device = match Device::new(options, kind) {
            Ok(device) => device,
            Err(e) => {
                return Err(e);
            },
        };
        begin_acquisition(device)
    }

    /// Makes the collateral to a quote out of what the collateral service
    /// has supplied for it.
    ///
    /// Fails with `MissingCollateral` where an artifact is missing, naming
    /// the first such, and with `EncodingError` where all are there and a
    /// revocation list or a certificate is not well-formed DER; succeeds
    /// everywhere else, with the certificates as PEM, the signing
    /// certificate first.
    pub fn get_collaterals(&self, fetched: &Artifacts) -> (r: Result<CollateralBundle, TdxError>)
        ensures
            match fetched.first_missing_spec() {
                Some(missing) => r matches Err(e) && e@ == ErrorView::MissingCollateral(missing),
                None => if well_formed(*fetched) {
                    r matches Ok(bundle) && is_bundle_of(bundle, *fetched)
                } else {
                    r matches Err(e) && e@ == ErrorView::EncodingError
                },
            },
    {
        match fetched.first_missing() {
            Some(missing) => Err(TdxError::MissingCollateral(missing)),
            None => crate::orchestrator::assemble_artifacts(fetched),
        }
    }
}

fn begin_acquisition(device: Device) -> (r: Result<Acquisition, TdxError>)
    ensures
        device.kind() == DeviceKind::Tpm && device.wished() is Some ==> (r matches Err(e) && e@
            == tpm_report_data_refused()),
        !(device.kind() == DeviceKind::Tpm && device.wished() is Some) ==> (r matches Ok(begun) && {
            &&& begun.device == device
            &&& begun.state is AwaitingReport
            &&& begun.action matches AcquireAction::RequestReport(request)
            &&& is_request_for(device.kind(), device.wished(), request)
        }),
{
    let (state, action) = device.step(AcquireState::Start, AcquireEvent::Begin);
    match action {
        AcquireAction::Abort(e) => Err(e),
        action => Ok(Acquisition { device, state, action }),
    }
}

} // verus!
