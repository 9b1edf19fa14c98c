//! The collateral bundle: the revocation lists, the trust-status documents
//! and the issuer chain that a verifier needs beside the quote.

use vstd::prelude::*;
use crate::chain::begin_marker;
use crate::der::{is_crl, read_leaf_certificate, x509_crl_well_formed, x509_leaf};
use crate::encoding::{pem_certificate, pem_encode_certificate};
use crate::error::{ErrorView, TdxError};
use crate::utils::sgx_extension_id;

verus! {

/// The artifacts a verifier needs beside the quote, in the form in which it
/// takes them: the revocation lists as DER, the trust-status documents as
/// JSON text, and the certificates of the issuer chain as PEM, the signing
/// certificate before the root certificate.
#[derive(Debug, Clone, PartialEq, Eq)]
pub struct CollateralBundle {
    pub root_ca_crl: Vec<u8>,
    pub platform_crl: Vec<u8>,
    pub tcb_info: String,
    pub enclave_identity: String,
    pub issuer_chain: Vec<u8>,
}

/// Whether `der` begins with a well-formed DER-encoded certificate.
pub open spec fn is_certificate_der(der: Seq<u8>) -> bool {
    x509_leaf(der, sgx_extension_id()) is Some
}

/// Whether the four binary artifacts have the structure they must have.
pub open spec fn artifacts_well_formed(
    root_ca_crl: Seq<u8>,
    platform_crl: Seq<u8>,
    signing_ca_der: Seq<u8>,
    root_ca_der: Seq<u8>,
) -> bool {
    &&& x509_crl_well_formed(root_ca_crl)
    &&& x509_crl_well_formed(platform_crl)
    &&& is_certificate_der(signing_ca_der)
    &&& is_certificate_der(root_ca_der)
}

/// The issuer chain of two certificates: the PEM block of the signing
/// certificate, and right behind it that of the root certificate.
pub open spec fn issuer_chain_of(signing_ca_der: Seq<u8>, root_ca_der: Seq<u8>) -> Seq<u8> {
    pem_certificate(signing_ca_der) + pem_certificate(root_ca_der)
}

/// Converts a DER-encoded certificate to one PEM block.
pub fn der_to_pem_bytes(der_bytes: &[u8]) -> (pem: Vec<u8>)
    ensures
        pem@ == pem_certificate(der_bytes@),
        pem@.len() >= 27,
        pem@.subrange(0, 27) == begin_marker(),
{
    pem_encode_certificate(der_bytes)
}

/// Whether `der` begins with a well-formed DER-encoded certificate.
pub fn is_certificate(der: &[u8]) -> (b: bool)
    ensures
        b == is_certificate_der(der@),
{
    let extension_id: [u8; 9] = [0x2a, 0x86, 0x48, 0x86, 0xf8, 0x4d, 0x01, 0x0d, 0x01];
    assert(extension_id@ =~= sgx_extension_id());
    read_leaf_certificate(der, extension_id.as_slice()).is_some()
}

fn copy_bytes(bytes: &[u8]) -> (v: Vec<u8>)
    ensures
        v@ == bytes@,
{
    vstd::slice::slice_to_vec(bytes)
}

/// Makes the collateral bundle out of the artifacts as they are supplied.
///
/// The two certificates are converted to PEM each on its own, and the issuer
/// chain is the PEM of the signing certificate followed by the PEM of the
/// root certificate. The other artifacts are taken over as they are. What
/// the artifacts say is not looked at; only their structure is: the call
/// fails with `EncodingError` exactly where a revocation list or a
/// certificate is not well-formed DER, and succeeds everywhere else.
pub fn assemble(
    root_ca_crl: &[u8],
    platform_crl: &[u8],
    signing_ca_der: &[u8],
    root_ca_der: &[u8],
    tcb_info_text: &str,
    enclave_identity_text: &str,
) -> (r: Result<CollateralBundle, TdxError>)
    ensures
        artifacts_well_formed(root_ca_crl@, platform_crl@, signing_ca_der@, root_ca_der@) ==> (
        r matches Ok(bundle) && {
            &&& bundle.root_ca_crl@ == root_ca_crl@
            &&& bundle.platform_crl@ == platform_crl@
            &&& bundle.tcb_info@ == tcb_info_text@
            &&& bundle.enclave_identity@ == enclave_identity_text@
            &&& bundle.issuer_chain@ == issuer_chain_of(signing_ca_der@, root_ca_der@)
            &&& occurs_begin(bundle.issuer_chain@, 0)
            &&& occurs_begin(bundle.issuer_chain@, pem_certificate(signing_ca_der@).len() as int)
        }),
        !artifacts_well_formed(root_ca_crl@, platform_crl@, signing_ca_der@, root_ca_der@) ==> (
        r matches Err(e) && e@ == ErrorView::EncodingError),
{
    if !is_crl(root_ca_crl) || !is_crl(platform_crl) || !is_certificate(signing_ca_der)
        || !is_certificate(root_ca_der) {
        return Err(TdxError::EncodingError);
    }
    let signing_ca_pem = der_to_pem_bytes(signing_ca_der);
    let root_ca_pem = der_to_pem_bytes(root_ca_der);
    let mut issuer_chain = signing_ca_pem;
    let ghost first = issuer_chain@;
    issuer_chain.extend_from_slice(root_ca_pem.as_slice());
    proof {
        let chain = issuer_chain@;
        let at = first.len() as int;
        assert(chain.subrange(0, 27) =~= first.subrange(0, 27));
        assert(chain.subrange(at, at + 27) =~= root_ca_pem@.subrange(0, 27));
    }
    Ok(
        CollateralBundle {
            root_ca_crl: copy_bytes(root_ca_crl),
            platform_crl: copy_bytes(platform_crl),
            tcb_info: tcb_info_text.to_owned(),
            enclave_identity: enclave_identity_text.to_owned(),
            issuer_chain,
        },
    )
}

/// Whether the line that opens a PEM certificate stands in `chain` at `at`.
pub open spec fn occurs_begin(chain: Seq<u8>, at: int) -> bool {
    crate::chain::occurs_at(chain, begin_marker(), at)
}

} // verus!
