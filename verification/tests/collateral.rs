use tdx::chain::find_certificate_ranges;
use tdx::collateral::{assemble, der_to_pem_bytes, is_certificate};
use tdx::error::TdxError;

const ROOT_CA_DER: &str = "3082028f30820234a003020102021422650cd65a9d3489f383b49552bf501b392706ac300a06082a8648ce3d04030230\
68311a301806035504030c11496e74656c2053475820526f6f74204341311a3018060355040a0c11496e74656c20436f\
72706f726174696f6e3114301206035504070c0b53616e746120436c617261310b300906035504080c024341310b3009\
060355040613025553301e170d3138303532313130343531305a170d3439313233313233353935395a3068311a301806\
035504030c11496e74656c2053475820526f6f74204341311a3018060355040a0c11496e74656c20436f72706f726174\
696f6e3114301206035504070c0b53616e746120436c617261310b300906035504080c024341310b3009060355040613\
0255533059301306072a8648ce3d020106082a8648ce3d030107034200040ba9c4c0c0c86193a3fe23d6b02cda10a8bb\
d4e88e48b4458561a36e705525f567918e2edc88e40d860bd0cc4ee26aacc988e505a953558c453f6b0904ae7394a381\
bb3081b8301f0603551d2304183016801422650cd65a9d3489f383b49552bf501b392706ac30520603551d1f044b3049\
3047a045a043864168747470733a2f2f6365727469666963617465732e7472757374656473657276696365732e696e74\
656c2e636f6d2f496e74656c534758526f6f7443412e646572301d0603551d0e0416041422650cd65a9d3489f383b495\
52bf501b392706ac300e0603551d0f0101ff04040302010630120603551d130101ff040830060101ff020101300a0608\
2a8648ce3d0403020349003046022100e5bfe50911f92f428920dc368a302ee3d12ec5867ff622ec6497f78060c13c20\
022100e09d25ac7a0cb3e5e8e68fec5fa3bd416c47440bd950639d450edcbea4576aa2";

const SIGNING_CA_DER: &str = "3082028b30820232a00302010202147e3882d5fb55294a40498e458403e91491bdf455300a06082a8648ce3d04030230\
68311a301806035504030c11496e74656c2053475820526f6f74204341311a3018060355040a0c11496e74656c20436f\
72706f726174696f6e3114301206035504070c0b53616e746120436c617261310b300906035504080c024341310b3009\
060355040613025553301e170d3138303532313130353031305a170d3235303532313130353031305a306c311e301c06\
035504030c15496e74656c2053475820544342205369676e696e67311a3018060355040a0c11496e74656c20436f7270\
6f726174696f6e3114301206035504070c0b53616e746120436c617261310b300906035504080c024341310b30090603\
550406130255533059301306072a8648ce3d020106082a8648ce3d0301070342000443451bcc73c9d5917caf766e61af\
3fe98087dd4f13257b261e851897799dd13d6811fb47713803bb9bae587fccddc2e31be9a28b86962acc6daf96da58ee\
ca96a381b53081b2301f0603551d2304183016801422650cd65a9d3489f383b49552bf501b392706ac30520603551d1f\
044b30493047a045a043864168747470733a2f2f6365727469666963617465732e747275737465647365727669636573\
2e696e74656c2e636f6d2f496e74656c534758526f6f7443412e646572301d0603551d0e041604147e3882d5fb55294a\
40498e458403e91491bdf455300e0603551d0f0101ff0404030206c0300c0603551d130101ff04023000300a06082a86\
48ce3d040302034700304402201f42f3038037f226c43b46002576e3a29caa36a064e47493272dc81aec186255022023\
7ed6eb346b0653c607db5d5d46260da0f3eed7d669ff37bc26686e8c1d2807";

const ROOT_CA_CRL_DER: &str = "308201223081c8020101300a06082a8648ce3d0403023068311a301806035504030c11496e74656c2053475820526f6f\
74204341311a3018060355040a0c11496e74656c20436f72706f726174696f6e3114301206035504070c0b53616e7461\
20436c617261310b300906035504080c024341310b3009060355040613025553170d3234303332303139313933305a17\
0d3235303430333139313933305aa02f302d300a0603551d140403020101301f0603551d2304183016801422650cd65a\
9d3489f383b49552bf501b392706ac300a06082a8648ce3d0403020349003046022100e7606fef2da68785a0c39bc34a\
c344c9e2d6ed4b0223e79a6c6297d421b73784022100fc1587aece4296d5e9370fd6a444a72d03c598cb21dc8104c55b\
127b766ea82b";

const PROCESSOR_CRL_DER: &str = "308201293081d1020101300a06082a8648ce3d04030230713123302106035504030c1a496e74656c205347582050434b\
2050726f636573736f72204341311a3018060355040a0c11496e74656c20436f72706f726174696f6e31143012060355\
04070c0b53616e746120436c617261310b300906035504080c024341310b3009060355040613025553170d3234303530\
393133323331315a170d3234303630383133323331315aa02f302d300a0603551d140403020101301f0603551d230418\
30168014d0e8aada75d7f92e4917983c7b1465d0d5f2594d300a06082a8648ce3d040302034700304402200c9f23035b\
1962d556a97af6cb0b2d636638a0ae5250849ca4aab05a950640e50220657bacd7b4a5a22f6f52bc995046bebd62e422\
b96a86bd61fc1c9ef818bc0a96";

const BEGIN: &[u8] = b"-----BEGIN CERTIFICATE-----";
const END: &[u8] = b"-----END CERTIFICATE-----\r\n";

fn bytes(hex_text: &str) -> Vec<u8> {
    hex::decode(hex_text).unwrap()
}

#[test]
fn pem_of_a_few_bytes() {
    assert_eq!(
        der_to_pem_bytes(&[1, 2, 3, 4]),
        b"-----BEGIN CERTIFICATE-----\r\nAQIDBA==\r\n-----END CERTIFICATE-----\r\n".to_vec()
    );
}

#[test]
fn pem_of_no_bytes() {
    assert_eq!(
        der_to_pem_bytes(&[]),
        b"-----BEGIN CERTIFICATE-----\r\n-----END CERTIFICATE-----\r\n".to_vec()
    );
}

#[test]
fn pem_lines_hold_sixty_four_characters() {
    let pem = der_to_pem_bytes(&bytes(SIGNING_CA_DER));
    let text = String::from_utf8(pem).unwrap();
    let lines: Vec<&str> = text.split("\r\n").collect();
    assert_eq!(lines[0], "-----BEGIN CERTIFICATE-----");
    assert_eq!(lines[1], "MIICizCCAjKgAwIBAgIUfjiC1ftVKUpASY5FhAPpFJG99FUwCgYIKoZIzj0EAwIw");
    assert_eq!(lines[lines.len() - 3], "ftbrNGsGU8YH211dRiYNoPPu19Zp/ze8JmhujB0oBw==");
    assert_eq!(lines[lines.len() - 2], "-----END CERTIFICATE-----");
    assert_eq!(lines[lines.len() - 1], "");
    assert!(lines[1..lines.len() - 3].iter().all(|line| line.len() == 64));
}

#[test]
fn certificates_are_told_from_other_bytes() {
    assert!(is_certificate(&bytes(ROOT_CA_DER)));
    assert!(is_certificate(&bytes(SIGNING_CA_DER)));
    assert!(!is_certificate(&bytes(ROOT_CA_CRL_DER)));
    assert!(!is_certificate(&[]));
    assert!(!is_certificate(&[0x30, 0x03, 0x02, 0x01, 0x00]));
    let root = bytes(ROOT_CA_DER);
    assert!(!is_certificate(&root[..root.len() - 1]));
}

#[test]
fn issuer_chain_is_signing_certificate_then_root_certificate() {
    let signing = bytes(SIGNING_CA_DER);
    let root = bytes(ROOT_CA_DER);
    let bundle = assemble(
        &bytes(ROOT_CA_CRL_DER),
        &bytes(PROCESSOR_CRL_DER),
        &signing,
        &root,
        "{\"tcbInfo\":{}}",
        "{\"enclaveIdentity\":{}}",
    )
    .unwrap();
    let chain = &bundle.issuer_chain;
    assert!(chain.starts_with(BEGIN));
    let first = der_to_pem_bytes(&signing);
    let second = der_to_pem_bytes(&root);
    assert!(first.ends_with(END));
    assert_eq!(&chain[..first.len()], &first[..]);
    assert!(chain[first.len()..].starts_with(BEGIN));
    assert_eq!(&chain[first.len()..], &second[..]);
    assert_eq!(chain.len(), first.len() + second.len());
    assert_eq!(
        find_certificate_ranges(chain),
        vec![(0, first.len() - 2), (first.len(), chain.len() - 2)]
    );
}

#[test]
fn other_artifacts_are_taken_over_unchanged() {
    let root_crl = bytes(ROOT_CA_CRL_DER);
    let pck_crl = bytes(PROCESSOR_CRL_DER);
    let bundle = assemble(
        &root_crl,
        &pck_crl,
        &bytes(SIGNING_CA_DER),
        &bytes(ROOT_CA_DER),
        "tcb info, not looked at",
        "",
    )
    .unwrap();
    assert_eq!(bundle.root_ca_crl, root_crl);
    assert_eq!(bundle.platform_crl, pck_crl);
    assert_eq!(bundle.tcb_info, "tcb info, not looked at");
    assert_eq!(bundle.enclave_identity, "");
}

#[test]
fn order_of_the_certificates_is_kept() {
    let signing = bytes(SIGNING_CA_DER);
    let root = bytes(ROOT_CA_DER);
    let crl = bytes(ROOT_CA_CRL_DER);
    let one = assemble(&crl, &crl, &signing, &root, "", "").unwrap();
    let other = assemble(&crl, &crl, &root, &signing, "", "").unwrap();
    assert_ne!(one.issuer_chain, other.issuer_chain);
    assert!(other.issuer_chain.starts_with(&der_to_pem_bytes(&root)));
}

#[test]
fn malformed_root_crl_is_an_encoding_error() {
    let r = assemble(
        &[0x30, 0x00],
        &bytes(PROCESSOR_CRL_DER),
        &bytes(SIGNING_CA_DER),
        &bytes(ROOT_CA_DER),
        "",
        "",
    );
    assert_eq!(r, Err(TdxError::EncodingError));
}

#[test]
fn malformed_platform_crl_is_an_encoding_error() {
    let r = assemble(
        &bytes(ROOT_CA_CRL_DER),
        &bytes(ROOT_CA_DER),
        &bytes(SIGNING_CA_DER),
        &bytes(ROOT_CA_DER),
        "",
        "",
    );
    assert_eq!(r, Err(TdxError::EncodingError));
}

#[test]
fn malformed_signing_certificate_is_an_encoding_error() {
    let mut signing = bytes(SIGNING_CA_DER);
    signing.truncate(100);
    let r = assemble(
        &bytes(ROOT_CA_CRL_DER),
        &bytes(PROCESSOR_CRL_DER),
        &signing,
        &bytes(ROOT_CA_DER),
        "",
        "",
    );
    assert_eq!(r, Err(TdxError::EncodingError));
}

#[test]
fn malformed_root_certificate_is_an_encoding_error() {
    let r = assemble(
        &bytes(ROOT_CA_CRL_DER),
        &bytes(PROCESSOR_CRL_DER),
        &bytes(SIGNING_CA_DER),
        b"-----BEGIN CERTIFICATE-----",
        "",
        "",
    );
    assert_eq!(r, Err(TdxError::EncodingError));
}
