//! One verification run, from the acquisition of a quote to the journal.
//!
//! A run goes through its states in one direction:
//! `Start`, `ReportAcquired`, `CollateralResolved`, `BundleAssembled`,
//! `Verified`, `JournalEmitted`, and from any of them it may end in `Failed`.
//! The device, the collateral service, the verification oracle and the
//! hashing of the collateral are reached by the caller; [`RunState::step`]
//! decides what each of their answers leads to. No step is tried twice.

use vstd::prelude::*;
use crate::collateral::{artifacts_well_formed, assemble, issuer_chain_of, CollateralBundle};
use crate::device::{Device, DeviceKind, DeviceOptions, RawReport};
use crate::error::{Artifact, ErrorView, TdxError};
use crate::journal::{CollateralHashes, Journal};

verus! {

/// The collateral artifacts as far as someone could supply them.
#[derive(Debug, Clone, PartialEq, Eq)]
pub struct Artifacts {
    pub root_ca_crl: Option<Vec<u8>>,
    pub platform_crl: Option<Vec<u8>>,
    pub signing_ca: Option<Vec<u8>>,
    pub root_ca: Option<Vec<u8>>,
    pub tcb_info: Option<String>,
    pub enclave_identity: Option<String>,
}

/// The steps of a run, in their order, and what comes after the last.
#[derive(Debug, Clone, Copy, PartialEq, Eq, Structural)]
pub enum RunStep {
    /// Acquiring the quote.
    Acquisition,
    /// Fetching the collateral that was not supplied.
    CollateralResolution,
    /// Assembling the bundle.
    BundleAssembly,
    /// Verifying the quote.
    Verification,
    /// Hashing the collateral and making the journal.
    JournalEmission,
    /// Nothing: the journal has been handed out.
    Finished,
}

/// How far a run has come, with what the steps to come need.
#[derive(Debug, Clone, PartialEq, Eq)]
pub enum RunState {
    /// The quote is being acquired.
    Start { supplied: Artifacts },
    /// The quote is there; the collateral that the caller did not supply is
    /// being fetched.
    ReportAcquired { supplied: Artifacts, report: RawReport },
    /// Every artifact is there.
    CollateralResolved { report: RawReport, artifacts: Artifacts },
    /// The bundle is made; the oracle is verifying the quote against it.
    BundleAssembled { report: RawReport, artifacts: Artifacts, bundle: CollateralBundle },
    /// The oracle has accepted the quote; the collateral is being hashed.
    Verified { artifacts: Artifacts, verified_output: Vec<u8>, timestamp: u64 },
    /// The journal has been handed out.
    JournalEmitted,
    /// The run has failed at this step, in this way.
    Failed { step: RunStep, error: TdxError },
}

/// What has happened since the last step.
#[derive(Debug, Clone, PartialEq, Eq)]
pub enum RunEvent {
    /// The acquisition has delivered this quote.
    Acquired(RawReport),
    /// The acquisition has given up.
    AcquireFailed(TdxError),
    /// The collateral service has supplied what it could.
    Fetched(Artifacts),
    /// Nothing outside the run was to be done.
    Proceed,
    /// The oracle has accepted the quote at this time, with this result.
    VerificationDone { verified_output: Vec<u8>, timestamp: u64 },
    /// The oracle has rejected the quote, in these words.
    VerificationRefused(String),
    /// The collateral has been hashed.
    Hashed(CollateralHashes),
}

/// What the caller is to do next.
#[derive(Debug, Clone, PartialEq, Eq)]
pub enum RunAction {
    /// Acquire a quote from this device.
    Acquire(Device),
    /// Ask the collateral service for these artifacts, by the bytes of the quote.
    FetchCollateral(Vec<Artifact>),
    /// Take the next step at once, with `Proceed`.
    Proceed,
    /// Have the oracle verify the quote of the state against the bundle of
    /// the state, at the present time.
    Verify,
    /// Hash the artifacts of the state.
    HashCollateral,
    /// Hand this journal to the proving backend.
    Emit(Journal),
    /// Report the failure of the state.
    Stop,
}

impl Artifacts {
    /// The first artifact that is missing, in the order root CA CRL,
    /// platform CRL, signing certificate, root certificate, TCB info,
    /// enclave identity; `None` where none is missing.
    pub open spec fn first_missing_spec(self) -> Option<Artifact> {
        if self.root_ca_crl is None {
            Some(Artifact::RootCaCrl)
        } else if self.platform_crl is None {
            Some(Artifact::PlatformCrl)
        } else if self.signing_ca is None {
            Some(Artifact::SigningCa)
        } else if self.root_ca is None {
            Some(Artifact::RootCa)
        } else if self.tcb_info is None {
            Some(Artifact::TcbInfo)
        } else if self.enclave_identity is None {
            Some(Artifact::EnclaveIdentity)
        } else {
            None
        }
    }

    /// The artifacts that are missing, in the same order.
    pub open spec fn missing_spec(self) -> Seq<Artifact> {
        (if self.root_ca_crl is None {
            seq![Artifact::RootCaCrl]
        } else {
            seq![]
        }) + (if self.platform_crl is None {
            seq![Artifact::PlatformCrl]
        } else {
            seq![]
        }) + (if self.signing_ca is None {
            seq![Artifact::SigningCa]
        } else {
            seq![]
        }) + (if self.root_ca is None {
            seq![Artifact::RootCa]
        } else {
            seq![]
        }) + (if self.tcb_info is None {
            seq![Artifact::TcbInfo]
        } else {
            seq![]
        }) + (if self.enclave_identity is None {
            seq![Artifact::EnclaveIdentity]
        } else {
            seq![]
        })
    }

    /// These artifacts, with each that is missing taken from `other`.
    pub open spec fn or_spec(self, other: Artifacts) -> Artifacts {
        Artifacts {
            root_ca_crl: if self.root_ca_crl is Some {
                self.root_ca_crl
            } else {
                other.root_ca_crl
            },
            platform_crl: if self.platform_crl is Some {
                self.platform_crl
            } else {
                other.platform_crl
            },
            signing_ca: if self.signing_ca is Some {
                self.signing_ca
            } else {
                other.signing_ca
            },
            root_ca: if self.root_ca is Some {
                self.root_ca
            } else {
                other.root_ca
            },
            tcb_info: if self.tcb_info is Some {
                self.tcb_info
            } else {
                other.tcb_info
            },
            enclave_identity: if self.enclave_identity is Some {
                self.enclave_identity
            } else {
                other.enclave_identity
            },
        }
    }

    /// No artifact at all.
    pub fn none() -> (r: Artifacts)
        ensures
            r == (Artifacts {
                root_ca_crl: None,
                platform_crl: None,
                signing_ca: None,
                root_ca: None,
                tcb_info: None,
                enclave_identity: None,
            }),
    {
        Artifacts {
            root_ca_crl: None,
            platform_crl: None,
            signing_ca: None,
            root_ca: None,
            tcb_info: None,
            enclave_identity: None,
        }
    }

    /// The first artifact that is missing; `None` where none is.
    pub fn first_missing(&self) -> (r: Option<Artifact>)
        ensures
            r == self.first_missing_spec(),
    {
        if self.root_ca_crl.is_none() {
            Some(Artifact::RootCaCrl)
        } else if self.platform_crl.is_none() {
            Some(Artifact::PlatformCrl)
        } else if self.signing_ca.is_none() {
            Some(Artifact::SigningCa)
        } else if self.root_ca.is_none() {
            Some(Artifact::RootCa)
        } else if self.tcb_info.is_none() {
            Some(Artifact::TcbInfo)
        } else if self.enclave_identity.is_none() {
            Some(Artifact::EnclaveIdentity)
        } else {
            None
        }
    }

    /// The artifacts that are missing.
    pub fn missing(&self) -> (r: Vec<Artifact>)
        ensures
            r@ == self.missing_spec(),
    {
        let mut r: Vec<Artifact> = Vec::new();
        if self.root_ca_crl.is_none() {
            r.push(Artifact::RootCaCrl);
        }
        if self.platform_crl.is_none() {
            r.push(Artifact::PlatformCrl);
        }
        if self.signing_ca.is_none() {
            r.push(Artifact::SigningCa);
        }
        if self.root_ca.is_none() {
            r.push(Artifact::RootCa);
        }
        if self.tcb_info.is_none() {
            r.push(Artifact::TcbInfo);
        }
        if self.enclave_identity.is_none() {
            r.push(Artifact::EnclaveIdentity);
        }
        assert(r@ =~= self.missing_spec());
        r
    }

    /// These artifacts, with each that is missing taken from `other`. What
    /// the caller supplied is never replaced by what was fetched.
    pub fn or(self, other: Artifacts) -> (r: Artifacts)
        ensures
            r == self.or_spec(other),
    {
        Artifacts {
            root_ca_crl: if self.root_ca_crl.is_some() {
                self.root_ca_crl
            } else {
                other.root_ca_crl
            },
            platform_crl: if self.platform_crl.is_some() {
                self.platform_crl
            } else {
                other.platform_crl
            },
            signing_ca: if self.signing_ca.is_some() {
                self.signing_ca
            } else {
                other.signing_ca
            },
            root_ca: if self.root_ca.is_some() {
                self.root_ca
            } else {
                other.root_ca
            },
            tcb_info: if self.tcb_info.is_some() {
                self.tcb_info
            } else {
                other.tcb_info
            },
            enclave_identity: if self.enclave_identity.is_some() {
                self.enclave_identity
            } else {
                other.enclave_identity
            },
        }
    }
}

/// Whether a run has ended at this step with this failure.
pub open spec fn fails(next: RunState, action: RunAction, at: RunStep, failure: ErrorView) -> bool {
    &&& next matches RunState::Failed { step, error }
    &&& step == at
    &&& error@ == failure
    &&& action is Stop
}

/// Whether `bundle` is what the complete `artifacts` assemble to.
pub open spec fn is_bundle_of(bundle: CollateralBundle, artifacts: Artifacts) -> bool
    recommends
        artifacts.first_missing_spec() is None,
{
    &&& bundle.root_ca_crl@ == artifacts.root_ca_crl->0@
    &&& bundle.platform_crl@ == artifacts.platform_crl->0@
    &&& bundle.tcb_info@ == artifacts.tcb_info->0@
    &&& bundle.enclave_identity@ == artifacts.enclave_identity->0@
    &&& bundle.issuer_chain@ == issuer_chain_of(artifacts.signing_ca->0@, artifacts.root_ca->0@)
}

/// Whether the binary artifacts of the complete `artifacts` are well-formed.
pub open spec fn well_formed(artifacts: Artifacts) -> bool
    recommends
        artifacts.first_missing_spec() is None,
{
    artifacts_well_formed(
        artifacts.root_ca_crl->0@,
        artifacts.platform_crl->0@,
        artifacts.signing_ca->0@,
        artifacts.root_ca->0@,
    )
}

/// What the resolution of the collateral leads to: the run fails with the
/// first artifact that is still missing, or all are there.
pub open spec fn resolves(
    report: RawReport,
    artifacts: Artifacts,
    next: RunState,
    action: RunAction,
) -> bool {
    match artifacts.first_missing_spec() {
        Some(missing) => fails(
            next,
            action,
            RunStep::CollateralResolution,
            ErrorView::MissingCollateral(missing),
        ),
        None => next == (RunState::CollateralResolved { report, artifacts }) && action is Proceed,
    }
}

impl RunState {
    /// The place of a state in the order of a run.
    pub open spec fn rank(self) -> int {
        match self {
            RunState::Start { .. } => 0,
            RunState::ReportAcquired { .. } => 1,
            RunState::CollateralResolved { .. } => 2,
            RunState::BundleAssembled { .. } => 3,
            RunState::Verified { .. } => 4,
            RunState::JournalEmitted => 5,
            RunState::Failed { .. } => 6,
        }
    }

    /// The step that a run in this state is at; for a run that has failed,
    /// the step at which it failed.
    pub open spec fn pending_spec(self) -> RunStep {
        match self {
            RunState::Start { .. } => RunStep::Acquisition,
            RunState::ReportAcquired { .. } => RunStep::CollateralResolution,
            RunState::CollateralResolved { .. } => RunStep::BundleAssembly,
            RunState::BundleAssembled { .. } => RunStep::Verification,
            RunState::Verified { .. } => RunStep::JournalEmission,
            RunState::JournalEmitted => RunStep::Finished,
            RunState::Failed { step, .. } => step,
        }
    }

    /// The step that a run in this state is at.
    pub fn pending(&self) -> (step: RunStep)
        ensures
            step == self.pending_spec(),
    {
        match self {
            RunState::Start { .. } => RunStep::Acquisition,
            RunState::ReportAcquired { .. } => RunStep::CollateralResolution,
            RunState::CollateralResolved { .. } => RunStep::BundleAssembly,
            RunState::BundleAssembled { .. } => RunStep::Verification,
            RunState::Verified { .. } => RunStep::JournalEmission,
            RunState::JournalEmitted => RunStep::Finished,
            RunState::Failed { step, .. } => *step,
        }
    }

    /// What a step may lead to, for every state and event.
    ///
    /// - `Start`: the quote that was acquired is kept; the artifacts that the
    ///   caller did not supply are to be fetched, or the run proceeds at once
    ///   where all were supplied. A failed acquisition fails the run as it
    ///   failed itself.
    /// - `ReportAcquired`: what was fetched fills in what was not supplied;
    ///   an artifact that is still missing fails the run with
    ///   `MissingCollateral`, naming the first such.
    /// - `CollateralResolved`: the bundle is assembled; artifacts that are
    ///   not well-formed fail the run with `EncodingError`.
    /// - `BundleAssembled`: the oracle's result and its time are kept, or
    ///   its refusal fails the run with `VerificationFailed`, in its words.
    /// - `Verified`: the journal is made of the result, the time and the
    ///   hashes, and handed out.
    /// - A run that has failed stays as it is, whatever happens.
    /// - Any other event that the state does not await fails the run with
    ///   `Unknown`.
    ///
    /// A failure names the step at which the run was when it failed.
    pub open spec fn step_allows(
        self,
        event: RunEvent,
        next: RunState,
        action: RunAction,
    ) -> bool {
        match (self, event) {
            (RunState::Start { supplied }, RunEvent::Acquired(report)) => {
                &&& next == (RunState::ReportAcquired { supplied, report })
                &&& if supplied.first_missing_spec() is None {
                    action is Proceed
                } else {
                    action matches RunAction::FetchCollateral(list) && list@
                        == supplied.missing_spec()
                }
            },
            (RunState::Start { .. }, RunEvent::AcquireFailed(e)) => fails(
                next,
                action,
                RunStep::Acquisition,
                e@,
            ),
            (RunState::ReportAcquired { supplied, report }, RunEvent::Fetched(fetched)) => resolves(
                report,
                supplied.or_spec(fetched),
                next,
                action,
            ),
            (RunState::ReportAcquired { supplied, report }, RunEvent::Proceed) => resolves(
                report,
                supplied,
                next,
                action,
            ),
            (RunState::CollateralResolved { report, artifacts }, RunEvent::Proceed) => {
                match artifacts.first_missing_spec() {
                    Some(missing) => fails(
                        next,
                        action,
                        RunStep::BundleAssembly,
                        ErrorView::MissingCollateral(missing),
                    ),
                    None => if well_formed(artifacts) {
                        &&& next matches RunState::BundleAssembled {
                            report: kept,
                            artifacts: same,
                            bundle,
                        }
                        &&& kept == report
                        &&& same == artifacts
                        &&& is_bundle_of(bundle, artifacts)
                        &&& action is Verify
                    } else {
                        fails(next, action, RunStep::BundleAssembly, ErrorView::EncodingError)
                    },
                }
            },
            (
                RunState::BundleAssembled { artifacts, .. },
                RunEvent::VerificationDone { verified_output, timestamp },
            ) => {
                &&& next == (RunState::Verified { artifacts, verified_output, timestamp })
                &&& action is HashCollateral
            },
            (RunState::BundleAssembled { .. }, RunEvent::VerificationRefused(words)) => fails(
                next,
                action,
                RunStep::Verification,
                ErrorView::VerificationFailed(words@),
            ),
            (
                RunState::Verified { verified_output, timestamp, .. },
                RunEvent::Hashed(hashes),
            ) => {
                &&& next is JournalEmitted
                &&& action == RunAction::Emit(Journal { verified_output, timestamp, hashes })
            },
            (RunState::Failed { .. }, _) => next == self && action is Stop,
            _ => fails(next, action, self.pending_spec(), ErrorView::Unknown),
        }
    }

    /// Takes one step of a run: from the state it is in and what has just
    /// happened to the state it is in next and what to do next.
    ///
    /// A run never goes back: from every state before the last two the next
    /// state comes later in the order of the run. A journal is handed out
    /// by one step only, the one that hears of the hashes after the oracle
    /// has accepted the quote.
    pub fn step(self, event: RunEvent) -> (r: (RunState, RunAction))
        ensures
            self.step_allows(event, r.0, r.1),
            self.rank() < 5 ==> self.rank() < r.0.rank(),
            r.1 is Emit ==> self is Verified && event is Hashed && r.0 is JournalEmitted,
            r.1 is Stop <==> r.0 is Failed,
    {
        let step = self.pending();
        match (self, event) {
            (RunState::Start { supplied }, RunEvent::Acquired(report)) => {
                let action = if supplied.first_missing().is_none() {
                    RunAction::Proceed
                } else {
                    RunAction::FetchCollateral(supplied.missing())
                };
                (RunState::ReportAcquired { supplied, report }, action)
            },
            (RunState::Start { .. }, RunEvent::AcquireFailed(error)) => (
                RunState::Failed { step, error },
                RunAction::Stop,
            ),
            (RunState::ReportAcquired { supplied, report }, RunEvent::Fetched(fetched)) => {
                resolve(report, supplied.or(fetched))
            },
            (RunState::ReportAcquired { supplied, report }, RunEvent::Proceed) => {
                resolve(report, supplied)
            },
            (RunState::CollateralResolved { report, artifacts }, RunEvent::Proceed) => {
                match artifacts.first_missing() {
                    Some(missing) => (
                        RunState::Failed { step, error: TdxError::MissingCollateral(missing) },
                        RunAction::Stop,
                    ),
                    None => match assemble_artifacts(&artifacts) {
                        Ok(bundle) => (
                            RunState::BundleAssembled { report, artifacts, bundle },
                            RunAction::Verify,
                        ),
                        Err(error) => (RunState::Failed { step, error }, RunAction::Stop),
                    },
                }
            },
            (
                RunState::BundleAssembled { artifacts, .. },
                RunEvent::VerificationDone { verified_output, timestamp },
            ) => (
                RunState::Verified { artifacts, verified_output, timestamp },
                RunAction::HashCollateral,
            ),
            (RunState::BundleAssembled { .. }, RunEvent::VerificationRefused(words)) => (
                RunState::Failed { step, error: TdxError::VerificationFailed(words) },
                RunAction::Stop,
            ),
            (
                RunState::Verified { verified_output, timestamp, .. },
                RunEvent::Hashed(hashes),
            ) => (
                RunState::JournalEmitted,
                RunAction::Emit(Journal { verified_output, timestamp, hashes }),
            ),
            (RunState::Failed { step, error }, _) => (
                RunState::Failed { step, error },
                RunAction::Stop,
            ),
            _ => (RunState::Failed { step, error: TdxError::Unknown }, RunAction::Stop),
        }
    }
}

fn resolve(report: RawReport, artifacts: Artifacts) -> (r: (RunState, RunAction))
    ensures
        resolves(report, artifacts, r.0, r.1),
{
    match artifacts.first_missing() {
        Some(missing) => (
            RunState::Failed {
                step: RunStep::CollateralResolution,
                error: TdxError::MissingCollateral(missing),
            },
            RunAction::Stop,
        ),
        None => (RunState::CollateralResolved { report, artifacts }, RunAction::Proceed),
    }
}

pub(crate) fn assemble_artifacts(artifacts: &Artifacts) -> (r: Result<CollateralBundle, TdxError>)
    requires
        artifacts.first_missing_spec() is None,
    ensures
        well_formed(*artifacts) ==> (r matches Ok(bundle) && is_bundle_of(bundle, *artifacts)),
        !well_formed(*artifacts) ==> (r matches Err(e) && e@ == ErrorView::EncodingError),
{
    match (
        &artifacts.root_ca_crl,
        &artifacts.platform_crl,
        &artifacts.signing_ca,
        &artifacts.root_ca,
        &artifacts.tcb_info,
        &artifacts.enclave_identity,
    ) {
        (
            Some(root_ca_crl),
            Some(platform_crl),
            Some(signing_ca),
            Some(root_ca),
            Some(tcb_info),
            Some(enclave_identity),
        ) => assemble(
            root_ca_crl.as_slice(),
            platform_crl.as_slice(),
            signing_ca.as_slice(),
            root_ca.as_slice(),
            tcb_info.as_str(),
            enclave_identity.as_str(),
        ),
        _ => Err(TdxError::EncodingError),
    }
}

/// Begins a run on a device of kind `kind`, for a caller who wishes the
/// report data `report_data` and supplies the artifacts `supplied`.
///
/// The run starts with the acquisition of a quote from the device. It fails
/// at once, with `InvalidRequest`, where the device only pretends.
pub fn begin(kind: DeviceKind, report_data: Option<[u8; 64]>, supplied: Artifacts) -> (r: (
    RunState,
    RunAction,
))
    ensures
        kind == DeviceKind::Mock ==> fails(
            r.0,
            r.1,
            RunStep::Acquisition,
            crate::device::mock_refused(),
        ),
        kind != DeviceKind::Mock ==> {
            &&& r.0 == (RunState::Start { supplied })
            &&& r.1 matches RunAction::Acquire(device)
            &&& device.kind() == kind
            &&& device.wished() == report_data
        },
{
    match Device::new(DeviceOptions { report_data }, kind) {
        Ok(device) => (RunState::Start { supplied }, RunAction::Acquire(device)),
        Err(error) => (RunState::Failed { step: RunStep::Acquisition, error }, RunAction::Stop),
    }
}

} // verus!
