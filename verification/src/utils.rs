//! Reading the identity of the platform out of the certificate data of a quote.

use vstd::prelude::*;
use crate::chain::{pem_blocks, QuoteCertificateChain};
use crate::der::{
    der_object_identifier, der_octet_string, der_sequence, pem_contents, read_leaf_certificate,
    read_object_identifier, read_octet_string, read_pem, read_sequence, text_of, x509_leaf,
    ExtensionLookup, ExtensionLookupView, LeafCertificate, LeafCertificateView,
};
use crate::encoding::{hex_encode, hex_lower};
use crate::error::{ErrorView, TdxError};

verus! {

/// The authority that issued a platform certification key certificate.
#[derive(Debug, Clone, Copy, PartialEq, Eq, Structural)]
pub enum PckCA {
    Platform,
    Processor,
}

/// The identifier of a platform: family, model, stepping, platform and custom SKU.
#[derive(Debug, Clone, Copy, PartialEq, Eq)]
pub struct Fmspc {
    pub bytes: [u8; 6],
}

impl View for Fmspc {
    type V = Seq<u8>;

    open spec fn view(&self) -> Seq<u8> {
        self.bytes@
    }
}

impl Fmspc {
    /// The identifier as twelve lower-case hexadecimal digits.
    pub fn to_hex(&self) -> (text: String)
        ensures
            text@ == hex_lower(self@),
            text@.len() == 12,
    {
        hex_encode(self.bytes.as_slice())
    }
}

/// The common name under which the platform authority issues certificates.
pub open spec fn platform_issuer() -> Seq<char> {
    "Intel SGX PCK Platform CA"@
}

/// The common name under which the processor authority issues certificates.
pub open spec fn processor_issuer() -> Seq<char> {
    "Intel SGX PCK Processor CA"@
}

/// The object identifier of the vendor extension, `1.2.840.113741.1.13.1`,
/// as DER encodes it.
pub open spec fn sgx_extension_id() -> Seq<u8> {
    seq![0x2au8, 0x86, 0x48, 0x86, 0xf8, 0x4d, 0x01, 0x0d, 0x01]
}

/// The object identifier of the element of the vendor extension that holds
/// the platform identifier.
pub open spec fn fmspc_id() -> Seq<char> {
    "1.2.840.113741.1.13.1.4"@
}

/// The authority that an issuer's common name stands for. A name that is
/// neither of the two known ones is unrecognized, and so is a missing name,
/// which is reported as the empty name.
pub open spec fn issuer_of(common_name: Option<Seq<char>>) -> Result<PckCA, ErrorView> {
    match common_name {
        Some(name) => if name == platform_issuer() {
            Ok(PckCA::Platform)
        } else if name == processor_issuer() {
            Ok(PckCA::Processor)
        } else {
            Err(ErrorView::UnrecognizedIssuer(name))
        },
        None => Err(ErrorView::UnrecognizedIssuer(Seq::empty())),
    }
}

/// The platform identifier that an OCTET STRING of the vendor extension
/// holds: its contents, where these are six bytes and nothing follows the
/// OCTET STRING in its element.
pub open spec fn fmspc_of_payload(payload: Seq<u8>, trailing: Seq<u8>) -> Result<
    Seq<u8>,
    ErrorView,
> {
    if payload.len() == 6 && trailing.len() == 0 {
        Ok(payload)
    } else {
        Err(ErrorView::MalformedExtension)
    }
}

/// The platform identifier among the elements of the vendor extension.
/// Each element is a SEQUENCE that begins with an object identifier. The
/// first element whose identifier is that of the platform identifier
/// decides: what follows the identifier must be an OCTET STRING of six
/// bytes that ends the element. Elements with another identifier are passed
/// over. An element that is no SEQUENCE, or begins with no identifier, makes
/// the extension malformed, and so does the end of the elements.
pub open spec fn fmspc_in_elements(elements: Seq<u8>) -> Result<Seq<u8>, ErrorView>
    decreases elements.len(),
{
    if elements.len() == 0 {
        Err(ErrorView::MalformedExtension)
    } else {
        match der_sequence(elements) {
            None => Err(ErrorView::MalformedExtension),
            Some((element, rest)) => match der_object_identifier(element) {
                None => Err(ErrorView::MalformedExtension),
                Some((id, value)) => if id == fmspc_id() {
                    match der_octet_string(value) {
                        None => Err(ErrorView::MalformedExtension),
                        Some((payload, trailing)) => fmspc_of_payload(payload, trailing),
                    }
                } else if rest.len() < elements.len() {
                    fmspc_in_elements(rest)
                } else {
                    Err(ErrorView::MalformedExtension)
                },
            },
        }
    }
}

/// The platform identifier that the value of the vendor extension holds:
/// the value is a SEQUENCE, and the identifier is sought among its elements.
pub open spec fn fmspc_of_extension(value: Seq<u8>) -> Result<Seq<u8>, ErrorView> {
    match der_sequence(value) {
        None => Err(ErrorView::MalformedExtension),
        Some((elements, _)) => fmspc_in_elements(elements),
    }
}

/// The platform identifier that a lookup of the vendor extension leads to.
pub open spec fn fmspc_of_lookup(lookup: ExtensionLookupView) -> Result<Seq<u8>, ErrorView> {
    match lookup {
        ExtensionLookupView::Absent => Err(ErrorView::ExtensionMissing),
        ExtensionLookupView::Repeated => Err(ErrorView::MalformedExtension),
        ExtensionLookupView::Present(value) => fmspc_of_extension(value),
    }
}

/// The identity that a platform certificate gives: the issuer is looked at
/// first, then the vendor extension.
pub open spec fn identity_of_leaf(leaf: LeafCertificateView) -> Result<(Seq<u8>, PckCA), ErrorView> {
    match issuer_of(leaf.issuer_common_name) {
        Err(e) => Err(e),
        Ok(issuer) => match fmspc_of_lookup(leaf.extension) {
            Err(e) => Err(e),
            Ok(fmspc) => Ok((fmspc, issuer)),
        },
    }
}

/// The identity that one PEM block gives when read as a platform certificate.
pub open spec fn identity_of_pem(pem: Seq<u8>) -> Result<(Seq<u8>, PckCA), ErrorView> {
    match pem_contents(pem) {
        None => Err(ErrorView::MalformedCertificate),
        Some(der) => match x509_leaf(der, sgx_extension_id()) {
            None => Err(ErrorView::MalformedCertificate),
            Some(leaf) => identity_of_leaf(leaf),
        },
    }
}

/// The identity of the platform that the certificate data of a quote gives:
/// that of the first certificate in it.
pub open spec fn identity_of_cert_data(cert_data: Seq<u8>) -> Result<(Seq<u8>, PckCA), ErrorView> {
    if pem_blocks(cert_data).len() == 0 {
        Err(ErrorView::NoCertificatesFound)
    } else {
        identity_of_pem(pem_blocks(cert_data)[0])
    }
}

/// A platform identifier that is read out of a vendor extension has six
/// bytes, whatever the extension holds.
pub proof fn lemma_fmspc_has_six_bytes(value: Seq<u8>)
    ensures
        fmspc_of_extension(value) matches Ok(fmspc) ==> fmspc.len() == 6,
{
    match der_sequence(value) {
        None => {},
        Some((elements, _)) => lemma_fmspc_in_elements_has_six_bytes(elements),
    }
}

/// A platform identifier that is found among the elements of a vendor
/// extension has six bytes.
pub proof fn lemma_fmspc_in_elements_has_six_bytes(elements: Seq<u8>)
    ensures
        fmspc_in_elements(elements) matches Ok(fmspc) ==> fmspc.len() == 6,
    decreases elements.len(),
{
    if elements.len() > 0 {
        match der_sequence(elements) {
            None => {},
            Some((element, rest)) => match der_object_identifier(element) {
                None => {},
                Some((id, value)) => {
                    if id != fmspc_id() && rest.len() < elements.len() {
                        lemma_fmspc_in_elements_has_six_bytes(rest);
                    }
                },
            },
        }
    }
}

/// The identity that certificate data gives is an identity with a platform
/// identifier of six bytes: extraction never cuts an identifier off or fills
/// one up.
pub proof fn lemma_identity_has_six_bytes(cert_data: Seq<u8>)
    ensures
        identity_of_cert_data(cert_data) matches Ok(identity) ==> identity.0.len() == 6,
{
    if pem_blocks(cert_data).len() > 0 {
        match pem_contents(pem_blocks(cert_data)[0]) {
            None => {},
            Some(der) => match x509_leaf(der, sgx_extension_id()) {
                None => {},
                Some(leaf) => match leaf.extension {
                    ExtensionLookupView::Present(value) => lemma_fmspc_has_six_bytes(value),
                    _ => {},
                },
            },
        }
    }
}

/// Whether two strings hold the same characters.
fn same_text(a: &str, b: &str) -> (r: bool)
    ensures
        r == (a@ == b@),
{
    a.to_owned() == b.to_owned()
}

/// Tells the issuing authority from the common name of a certificate's
/// issuer. The two known names are matched letter for letter; any other
/// name fails with `UnrecognizedIssuer` and is handed back in the error,
/// and a missing name fails in the same way with the empty name.
pub fn issuer_from_common_name(common_name: &Option<String>) -> (r: Result<PckCA, TdxError>)
    ensures
        match r {
            Ok(issuer) => issuer_of(text_of(*common_name)) == Ok::<PckCA, ErrorView>(
                issuer,
            ),
            Err(e) => issuer_of(text_of(*common_name)) == Err::<PckCA, ErrorView>(e@),
        },
{
    match common_name {
        Some(name) => {
            if same_text(name.as_str(), "Intel SGX PCK Platform CA") {
                Ok(PckCA::Platform)
            } else if same_text(name.as_str(), "Intel SGX PCK Processor CA") {
                Ok(PckCA::Processor)
            } else {
                Err(TdxError::UnrecognizedIssuer(name.clone()))
            }
        },
        None => Err(TdxError::UnrecognizedIssuer(String::new())),
    }
}

/// Takes the platform identifier out of the contents of its OCTET STRING.
/// Succeeds exactly where the contents are six bytes and `trailing`, what
/// follows the OCTET STRING in its element, is empty; nothing is cut off or
/// filled up.
pub fn fmspc_from_payload(payload: &[u8], trailing: &[u8]) -> (r: Result<Fmspc, TdxError>)
    ensures
        match r {
            Ok(fmspc) => fmspc_of_payload(payload@, trailing@) == Ok::<Seq<u8>, ErrorView>(fmspc@),
            Err(e) => fmspc_of_payload(payload@, trailing@) == Err::<Seq<u8>, ErrorView>(e@),
        },
{
    if payload.len() == 6 && trailing.len() == 0 {
        let bytes: [u8; 6] = [
            payload[0],
            payload[1],
            payload[2],
            payload[3],
            payload[4],
            payload[5],
        ];
        assert(bytes@ =~= payload@);
        Ok(Fmspc { bytes })
    } else {
        Err(TdxError::MalformedExtension)
    }
}

/// Reads the platform identifier out of the value of the vendor extension.
///
/// The value is walked element by element, with every read checked, until
/// the element of the platform identifier is found. Fails with
/// `MalformedExtension` where the value is not built as it must be, where
/// the element is not among its elements, or where the element does not
/// hold exactly six bytes.
pub fn extract_fmspc_from_extension(value: &[u8]) -> (r: Result<Fmspc, TdxError>)
    ensures
        match r {
            Ok(fmspc) => fmspc_of_extension(value@) == Ok::<Seq<u8>, ErrorView>(fmspc@),
            Err(e) => fmspc_of_extension(value@) == Err::<Seq<u8>, ErrorView>(e@),
        },
{
    let mut elements: Vec<u8> = match read_sequence(value) {
        Some((elements, _)) => elements,
        None => {
            return Err(TdxError::MalformedExtension);
        },
    };
    while elements.len() > 0
        invariant
            fmspc_of_extension(value@) == fmspc_in_elements(elements@),
        decreases elements@.len(),
    {
        let (element, rest) = match read_sequence(elements.as_slice()) {
            Some(found) => found,
            None => {
                return Err(TdxError::MalformedExtension);
            },
        };
        let (id, after) = match read_object_identifier(element.as_slice()) {
            Some(found) => found,
            None => {
                return Err(TdxError::MalformedExtension);
            },
        };
        if same_text(id.as_str(), "1.2.840.113741.1.13.1.4") {
            return match read_octet_string(after.as_slice()) {
                Some((payload, trailing)) => fmspc_from_payload(
                    payload.as_slice(),
                    trailing.as_slice(),
                ),
                None => Err(TdxError::MalformedExtension),
            };
        }
        elements = rest;
    }
    Err(TdxError::MalformedExtension)
}

/// Reads the identity of the platform out of what was read of its
/// certificate: the issuing authority, then the platform identifier.
///
/// Fails with `UnrecognizedIssuer` where the issuer is none of the known
/// ones, with `ExtensionMissing` where the certificate has no vendor
/// extension, and with `MalformedExtension` where it has more than one or
/// the one it has does not yield a platform identifier.
pub fn identity_from_leaf(leaf: &LeafCertificate) -> (r: Result<(Fmspc, PckCA), TdxError>)
    ensures
        match r {
            Ok((fmspc, issuer)) => identity_of_leaf(leaf@) == Ok::<(Seq<u8>, PckCA), ErrorView>(
                (fmspc@, issuer),
            ),
            Err(e) => identity_of_leaf(leaf@) == Err::<(Seq<u8>, PckCA), ErrorView>(e@),
        },
{
    let issuer = match issuer_from_common_name(&leaf.issuer_common_name) {
        Ok(issuer) => issuer,
        Err(e) => {
            return Err(e);
        },
    };
    let fmspc = match &leaf.extension {
        ExtensionLookup::Absent => {
            return Err(TdxError::ExtensionMissing);
        },
        ExtensionLookup::Repeated => {
            return Err(TdxError::MalformedExtension);
        },
        ExtensionLookup::Present(value) => match extract_fmspc_from_extension(value.as_slice()) {
            Ok(fmspc) => fmspc,
            Err(e) => {
                return Err(e);
            },
        },
    };
    Ok((fmspc, issuer))
}

/// Reads the identity of the platform out of the certificate chain of a quote.
///
/// The first certificate of the chain is the platform certificate. Fails
/// with `NoCertificatesFound` where the chain is empty, with
/// `MalformedCertificate` where its first block is no PEM-wrapped X.509
/// certificate, and as [`identity_from_leaf`] does on what the certificate
/// holds. The same certificate data always gives the same outcome.
pub fn extract(chain: &QuoteCertificateChain) -> (r: Result<(Fmspc, PckCA), TdxError>)
    ensures
        match r {
            Ok((fmspc, issuer)) => identity_of_cert_data(chain.data()) == Ok::<
                (Seq<u8>, PckCA),
                ErrorView,
            >((fmspc@, issuer)),
            Err(e) => identity_of_cert_data(chain.data()) == Err::<(Seq<u8>, PckCA), ErrorView>(
                e@,
            ),
        },
{
    let pem = match chain.certificate(0) {
        Some(pem) => pem,
        None => {
            return Err(TdxError::NoCertificatesFound);
        },
    };
    let der = match read_pem(pem) {
        Some(der) => der,
        None => {
            return Err(TdxError::MalformedCertificate);
        },
    };
    let extension_id: [u8; 9] = [0x2a, 0x86, 0x48, 0x86, 0xf8, 0x4d, 0x01, 0x0d, 0x01];
    assert(extension_id@ =~= sgx_extension_id());
    let leaf = match read_leaf_certificate(der.as_slice(), extension_id.as_slice()) {
        Some(leaf) => leaf,
        None => {
            return Err(TdxError::MalformedCertificate);
        },
    };
    identity_from_leaf(&leaf)
}

/// Reads the platform identifier, as twelve lower-case hexadecimal digits,
/// and the issuing authority out of the certificate data of a quote.
///
/// Succeeds and fails as [`extract`] does on the chain that the data holds.
pub fn get_pck_fmspc_and_issuer(cert_data: &[u8]) -> (r: Result<(String, PckCA), TdxError>)
    ensures
        match r {
            Ok((text, issuer)) => exists|fmspc: Seq<u8>|
                identity_of_cert_data(cert_data@) == Ok::<(Seq<u8>, PckCA), ErrorView>(
                    (fmspc, issuer),
                ) && text@ == hex_lower(fmspc),
            Err(e) => identity_of_cert_data(cert_data@) == Err::<(Seq<u8>, PckCA), ErrorView>(e@),
        },
{
    let chain = QuoteCertificateChain::new(cert_data);
    match extract(&chain) {
        Ok((fmspc, issuer)) => Ok((fmspc.to_hex(), issuer)),
        Err(e) => Err(e),
    }
}

} // verus!
