use tdx::collateral::{assemble, der_to_pem_bytes};
use tdx::device::{DeviceKind, RawReport};
use tdx::error::{Artifact, TdxError};
use tdx::journal::{CollateralHashes, Journal};
use tdx::orchestrator::{begin, Artifacts, RunAction, RunEvent, RunState, RunStep};

const ROOT_CA_DER: &str = "3082028f30820234a003020102021422650cd65a9d3489f383b49552bf501b392706ac300a06082a8648ce3d04030230\
68311a301806035504030c11496e74656c2053475820526f6f74204341311a3018060355040a0c11496e74656c20436f\
72706f726174696f6e3114301206035504070c0b53616e746120436c617261310b300906035504080c024341310b3009\
060355040613025553301e170d3138303532313130343531305a170d3439313233313233353935395a3068311a301806\
035504030c11496e74656c2053475820526f6f74204341311a3018060355040a0c11496e74656c20436f72706f726174\
696f6e3114301206035504070c0b53616e746120436c617261310b300906035504080c024341310b3009060355040613\
0255533059301306072a8648ce3d020106082a8648ce3d030107034200040ba9c4c0c0c86193a3fe23d6b02cda10a8bb\
d4e88e48b4458561a36e705525f567918e2edc88e40d860bd0cc4ee26aacc988e505a953558c453f6b0904ae7394a381\
bb3081b8301f0603551d2304183016801422650cd65a9d3489f383b49552bf501b392706ac30520603551d1f044b3049\
3047a045a043864168747470733a2f2f6365727469666963617465732e7472757374656473657276696365732e696e74\
656c2e636f6d2f496e74656c534758526f6f7443412e646572301d0603551d0e0416041422650cd65a9d3489f383b495\
52bf501b392706ac300e0603551d0f0101ff04040302010630120603551d130101ff040830060101ff020101300a0608\
2a8648ce3d0403020349003046022100e5bfe50911f92f428920dc368a302ee3d12ec5867ff622ec6497f78060c13c20\
022100e09d25ac7a0cb3e5e8e68fec5fa3bd416c47440bd950639d450edcbea4576aa2";

const SIGNING_CA_DER: &str = "3082028b30820232a00302010202147e3882d5fb55294a40498e458403e91491bdf455300a06082a8648ce3d04030230\
68311a301806035504030c11496e74656c2053475820526f6f74204341311a3018060355040a0c11496e74656c20436f\
72706f726174696f6e3114301206035504070c0b53616e746120436c617261310b300906035504080c024341310b3009\
060355040613025553301e170d3138303532313130353031305a170d3235303532313130353031305a306c311e301c06\
035504030c15496e74656c2053475820544342205369676e696e67311a3018060355040a0c11496e74656c20436f7270\
6f726174696f6e3114301206035504070c0b53616e746120436c617261310b300906035504080c024341310b30090603\
550406130255533059301306072a8648ce3d020106082a8648ce3d0301070342000443451bcc73c9d5917caf766e61af\
3fe98087dd4f13257b261e851897799dd13d6811fb47713803bb9bae587fccddc2e31be9a28b86962acc6daf96da58ee\
ca96a381b53081b2301f0603551d2304183016801422650cd65a9d3489f383b49552bf501b392706ac30520603551d1f\
044b30493047a045a043864168747470733a2f2f6365727469666963617465732e747275737465647365727669636573\
2e696e74656c2e636f6d2f496e74656c534758526f6f7443412e646572301d0603551d0e041604147e3882d5fb55294a\
40498e458403e91491bdf455300e0603551d0f0101ff0404030206c0300c0603551d130101ff04023000300a06082a86\
48ce3d040302034700304402201f42f3038037f226c43b46002576e3a29caa36a064e47493272dc81aec186255022023\
7ed6eb346b0653c607db5d5d46260da0f3eed7d669ff37bc26686e8c1d2807";

const ROOT_CA_CRL_DER: &str = "308201223081c8020101300a06082a8648ce3d0403023068311a301806035504030c11496e74656c2053475820526f6f\
74204341311a3018060355040a0c11496e74656c20436f72706f726174696f6e3114301206035504070c0b53616e7461\
20436c617261310b300906035504080c024341310b3009060355040613025553170d3234303332303139313933305a17\
0d3235303430333139313933305aa02f302d300a0603551d140403020101301f0603551d2304183016801422650cd65a\
9d3489f383b49552bf501b392706ac300a06082a8648ce3d0403020349003046022100e7606fef2da68785a0c39bc34a\
c344c9e2d6ed4b0223e79a6c6297d421b73784022100fc1587aece4296d5e9370fd6a444a72d03c598cb21dc8104c55b\
127b766ea82b";

const PROCESSOR_CRL_DER: &str = "308201293081d1020101300a06082a8648ce3d04030230713123302106035504030c1a496e74656c205347582050434b\
2050726f636573736f72204341311a3018060355040a0c11496e74656c20436f72706f726174696f6e31143012060355\
04070c0b53616e746120436c617261310b300906035504080c024341310b3009060355040613025553170d3234303530\
393133323331315a170d3234303630383133323331315aa02f302d300a0603551d140403020101301f0603551d230418\
30168014d0e8aada75d7f92e4917983c7b1465d0d5f2594d300a06082a8648ce3d040302034700304402200c9f23035b\
1962d556a97af6cb0b2d636638a0ae5250849ca4aab05a950640e50220657bacd7b4a5a22f6f52bc995046bebd62e422\
b96a86bd61fc1c9ef818bc0a96";

fn bytes(hex_text: &str) -> Vec<u8> {
    hex::decode(hex_text).unwrap()
}

fn complete() -> Artifacts {
    Artifacts {
        root_ca_crl: Some(bytes(ROOT_CA_CRL_DER)),
        platform_crl: Some(bytes(PROCESSOR_CRL_DER)),
        signing_ca: Some(bytes(SIGNING_CA_DER)),
        root_ca: Some(bytes(ROOT_CA_DER)),
        tcb_info: Some("{\"tcbInfo\":1}".to_string()),
        enclave_identity: Some("{\"enclaveIdentity\":2}".to_string()),
    }
}

fn report() -> RawReport {
    RawReport { report: vec![4, 0, 2, 0, 0x81], var_data: None, report_data: Some([8; 64]) }
}

fn hashes() -> CollateralHashes {
    CollateralHashes {
        tcb_info: [1; 32],
        enclave_identity: [2; 32],
        root_ca: [3; 32],
        tcb_signing: [4; 32],
        root_ca_crl: [5; 32],
        platform_crl: [6; 32],
    }
}

fn assembled() -> RunState {
    let (state, _) = RunState::CollateralResolved { report: report(), artifacts: complete() }
        .step(RunEvent::Proceed);
    state
}

#[test]
fn run_begins_with_the_acquisition() {
    let (state, action) = begin(DeviceKind::ConfigFs, Some([5; 64]), Artifacts::none());
    assert_eq!(state, RunState::Start { supplied: Artifacts::none() });
    match action {
        RunAction::Acquire(device) => assert_eq!(device.device_kind(), DeviceKind::ConfigFs),
        other => panic!("unexpected action {other:?}"),
    }
}

#[test]
fn run_on_a_mock_device_fails_at_once() {
    let (state, action) = begin(DeviceKind::Mock, None, complete());
    assert_eq!(
        state,
        RunState::Failed {
            step: RunStep::Acquisition,
            error: TdxError::InvalidRequest("Mock device is not supported!".to_string()),
        }
    );
    assert_eq!(action, RunAction::Stop);
}

#[test]
fn whole_run_with_fetched_collateral() {
    let (state, _) = begin(DeviceKind::Legacy, None, Artifacts::none());
    let (state, action) = state.step(RunEvent::Acquired(report()));
    assert_eq!(state, RunState::ReportAcquired { supplied: Artifacts::none(), report: report() });
    assert_eq!(
        action,
        RunAction::FetchCollateral(vec![
            Artifact::RootCaCrl,
            Artifact::PlatformCrl,
            Artifact::SigningCa,
            Artifact::RootCa,
            Artifact::TcbInfo,
            Artifact::EnclaveIdentity,
        ])
    );
    let (state, action) = state.step(RunEvent::Fetched(complete()));
    assert_eq!(state, RunState::CollateralResolved { report: report(), artifacts: complete() });
    assert_eq!(action, RunAction::Proceed);
    let (state, action) = state.step(RunEvent::Proceed);
    let bundle = assemble(
        &bytes(ROOT_CA_CRL_DER),
        &bytes(PROCESSOR_CRL_DER),
        &bytes(SIGNING_CA_DER),
        &bytes(ROOT_CA_DER),
        "{\"tcbInfo\":1}",
        "{\"enclaveIdentity\":2}",
    )
    .unwrap();
    assert!(bundle.issuer_chain.starts_with(&der_to_pem_bytes(&bytes(SIGNING_CA_DER))));
    assert_eq!(
        state,
        RunState::BundleAssembled { report: report(), artifacts: complete(), bundle }
    );
    assert_eq!(action, RunAction::Verify);
    let (state, action) = state.step(RunEvent::VerificationDone {
        verified_output: vec![0, 4, 0, 2],
        timestamp: 1_725_950_994,
    });
    assert_eq!(
        state,
        RunState::Verified {
            artifacts: complete(),
            verified_output: vec![0, 4, 0, 2],
            timestamp: 1_725_950_994,
        }
    );
    assert_eq!(action, RunAction::HashCollateral);
    let (state, action) = state.step(RunEvent::Hashed(hashes()));
    assert_eq!(state, RunState::JournalEmitted);
    let journal =
        Journal { verified_output: vec![0, 4, 0, 2], timestamp: 1_725_950_994, hashes: hashes() };
    assert_eq!(action, RunAction::Emit(journal.clone()));
    assert_eq!(Journal::decode(&journal.encode()), Ok(journal));
}

#[test]
fn supplied_collateral_is_not_fetched() {
    let (state, action) = RunState::Start { supplied: complete() }.step(RunEvent::Acquired(report()));
    assert_eq!(state, RunState::ReportAcquired { supplied: complete(), report: report() });
    assert_eq!(action, RunAction::Proceed);
    let (state, action) = state.step(RunEvent::Proceed);
    assert_eq!(state, RunState::CollateralResolved { report: report(), artifacts: complete() });
    assert_eq!(action, RunAction::Proceed);
}

#[test]
fn only_what_is_missing_is_fetched() {
    let mut supplied = complete();
    supplied.platform_crl = None;
    supplied.tcb_info = None;
    let (state, action) =
        RunState::Start { supplied: supplied.clone() }.step(RunEvent::Acquired(report()));
    assert_eq!(action, RunAction::FetchCollateral(vec![Artifact::PlatformCrl, Artifact::TcbInfo]));
    let mut fetched = Artifacts::none();
    fetched.platform_crl = Some(vec![1, 2, 3]);
    fetched.tcb_info = Some("fetched".to_string());
    fetched.root_ca = Some(vec![9, 9, 9]);
    let (state, action) = state.step(RunEvent::Fetched(fetched));
    let mut merged = complete();
    merged.platform_crl = Some(vec![1, 2, 3]);
    merged.tcb_info = Some("fetched".to_string());
    assert_eq!(state, RunState::CollateralResolved { report: report(), artifacts: merged });
    assert_eq!(action, RunAction::Proceed);
}

#[test]
fn artifact_that_cannot_be_supplied_fails_the_run() {
    let cases = [
        (Artifact::RootCaCrl, 0),
        (Artifact::PlatformCrl, 1),
        (Artifact::SigningCa, 2),
        (Artifact::RootCa, 3),
        (Artifact::TcbInfo, 4),
        (Artifact::EnclaveIdentity, 5),
    ];
    for (artifact, index) in cases {
        let mut fetched = complete();
        match index {
            0 => fetched.root_ca_crl = None,
            1 => fetched.platform_crl = None,
            2 => fetched.signing_ca = None,
            3 => fetched.root_ca = None,
            4 => fetched.tcb_info = None,
            _ => fetched.enclave_identity = None,
        }
        let state = RunState::ReportAcquired { supplied: Artifacts::none(), report: report() };
        let (state, action) = state.step(RunEvent::Fetched(fetched));
        assert_eq!(
            state,
            RunState::Failed {
                step: RunStep::CollateralResolution,
                error: TdxError::MissingCollateral(artifact),
            }
        );
        assert_eq!(state.pending(), RunStep::CollateralResolution);
        assert_eq!(action, RunAction::Stop);
    }
}

#[test]
fn first_missing_artifact_is_named() {
    let mut fetched = complete();
    fetched.signing_ca = None;
    fetched.enclave_identity = None;
    assert_eq!(fetched.first_missing(), Some(Artifact::SigningCa));
    assert_eq!(fetched.missing(), vec![Artifact::SigningCa, Artifact::EnclaveIdentity]);
    let state = RunState::ReportAcquired { supplied: Artifacts::none(), report: report() };
    let (state, _) = state.step(RunEvent::Fetched(fetched));
    assert_eq!(
        state,
        RunState::Failed {
            step: RunStep::CollateralResolution,
            error: TdxError::MissingCollateral(Artifact::SigningCa),
        }
    );
    assert_eq!(complete().first_missing(), None);
    assert_eq!(complete().missing(), vec![]);
}

#[test]
fn proceeding_without_all_artifacts_fails_the_run() {
    let state = RunState::ReportAcquired { supplied: Artifacts::none(), report: report() };
    let (state, action) = state.step(RunEvent::Proceed);
    assert_eq!(
        state,
        RunState::Failed {
            step: RunStep::CollateralResolution,
            error: TdxError::MissingCollateral(Artifact::RootCaCrl),
        }
    );
    assert_eq!(action, RunAction::Stop);
    let mut artifacts = complete();
    artifacts.root_ca = None;
    let state = RunState::CollateralResolved { report: report(), artifacts };
    let (state, action) = state.step(RunEvent::Proceed);
    assert_eq!(
        state,
        RunState::Failed {
            step: RunStep::BundleAssembly,
            error: TdxError::MissingCollateral(Artifact::RootCa),
        }
    );
    assert_eq!(action, RunAction::Stop);
}

#[test]
fn malformed_artifact_fails_the_run() {
    let mut artifacts = complete();
    artifacts.root_ca = Some(vec![0x30, 0x82, 0x01]);
    let state = RunState::CollateralResolved { report: report(), artifacts };
    let (state, action) = state.step(RunEvent::Proceed);
    assert_eq!(
        state,
        RunState::Failed { step: RunStep::BundleAssembly, error: TdxError::EncodingError }
    );
    assert_eq!(action, RunAction::Stop);
}

#[test]
fn refusal_of_the_oracle_fails_the_run_in_its_words() {
    let words = "TCB status is revoked".to_string();
    let (state, action) = assembled().step(RunEvent::VerificationRefused(words.clone()));
    assert_eq!(
        state,
        RunState::Failed { step: RunStep::Verification, error: TdxError::VerificationFailed(words) }
    );
    assert_eq!(action, RunAction::Stop);
}

#[test]
fn failed_acquisition_fails_the_run_unchanged() {
    let failure = TdxError::Firmware("no device".to_string());
    let (state, action) =
        RunState::Start { supplied: complete() }.step(RunEvent::AcquireFailed(failure.clone()));
    assert_eq!(state, RunState::Failed { step: RunStep::Acquisition, error: failure });
    assert_eq!(action, RunAction::Stop);
}

#[test]
fn event_out_of_turn_fails_the_run() {
    let verified =
        RunState::Verified { artifacts: complete(), verified_output: vec![1], timestamp: 2 };
    let cases = [
        (RunState::Start { supplied: complete() }, RunEvent::Proceed, RunStep::Acquisition),
        (RunState::Start { supplied: complete() }, RunEvent::Hashed(hashes()), RunStep::Acquisition),
        (
            RunState::ReportAcquired { supplied: complete(), report: report() },
            RunEvent::Acquired(report()),
            RunStep::CollateralResolution,
        ),
        (
            RunState::CollateralResolved { report: report(), artifacts: complete() },
            RunEvent::Fetched(complete()),
            RunStep::BundleAssembly,
        ),
        (assembled(), RunEvent::Hashed(hashes()), RunStep::Verification),
        (assembled(), RunEvent::Proceed, RunStep::Verification),
        (verified.clone(), RunEvent::Proceed, RunStep::JournalEmission),
        (
            verified,
            RunEvent::VerificationDone { verified_output: vec![], timestamp: 0 },
            RunStep::JournalEmission,
        ),
        (RunState::JournalEmitted, RunEvent::Hashed(hashes()), RunStep::Finished),
        (RunState::JournalEmitted, RunEvent::Proceed, RunStep::Finished),
    ];
    for (state, event, step) in cases {
        assert_eq!(state.pending(), step);
        let (state, action) = state.step(event);
        assert_eq!(state, RunState::Failed { step, error: TdxError::Unknown });
        assert_eq!(action, RunAction::Stop);
    }
}

#[test]
fn failed_run_stays_as_it_is() {
    let failed = RunState::Failed { step: RunStep::Verification, error: TdxError::EncodingError };
    for event in [RunEvent::Proceed, RunEvent::Hashed(hashes()), RunEvent::Acquired(report())] {
        let (state, action) = failed.clone().step(event);
        assert_eq!(state, failed);
        assert_eq!(action, RunAction::Stop);
    }
}

#[test]
fn what_was_supplied_is_not_replaced_by_what_was_fetched() {
    let mut supplied = Artifacts::none();
    supplied.tcb_info = Some("mine".to_string());
    supplied.root_ca = Some(vec![1]);
    let mut fetched = complete();
    fetched.tcb_info = Some("theirs".to_string());
    let merged = supplied.or(fetched);
    assert_eq!(merged.tcb_info, Some("mine".to_string()));
    assert_eq!(merged.root_ca, Some(vec![1]));
    assert_eq!(merged.signing_ca, complete().signing_ca);
    assert_eq!(merged.first_missing(), None);
}
