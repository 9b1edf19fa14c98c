//! What this library reads of DER and X.509 data. The reading itself is done
//! by `x509-parser` and `asn1-rs`; the functions here hand the results on as
//! plain values, and their contracts are taken on trust.

use vstd::prelude::*;
use std::borrow::Cow;
use x509_parser::oid_registry::asn1_rs::{FromDer, OctetString, Oid, Sequence};
use x509_parser::{parse_x509_certificate, parse_x509_crl};
use x509_parser::pem::parse_x509_pem;

verus! {

/// What a lookup of one extension in a certificate found.
#[derive(Debug, Clone, PartialEq, Eq)]
pub enum ExtensionLookup {
    /// The certificate has no such extension.
    Absent,
    /// The certificate has the extension more than once.
    Repeated,
    /// The certificate has the extension once, with this value.
    Present(Vec<u8>),
}

/// The mathematical value of an [`ExtensionLookup`].
pub enum ExtensionLookupView {
    Absent,
    Repeated,
    Present(Seq<u8>),
}

impl View for ExtensionLookup {
    type V = ExtensionLookupView;

    open spec fn view(&self) -> ExtensionLookupView {
        match self {
            ExtensionLookup::Absent => ExtensionLookupView::Absent,
            ExtensionLookup::Repeated => ExtensionLookupView::Repeated,
            ExtensionLookup::Present(value) => ExtensionLookupView::Present(value@),
        }
    }
}

/// The characters of a text that may be missing.
pub open spec fn text_of(text: Option<String>) -> Option<Seq<char>> {
    match text {
        Some(s) => Some(s@),
        None => None,
    }
}

/// What the extractor reads of a platform certificate.
#[derive(Debug, Clone, PartialEq, Eq)]
pub struct LeafCertificate {
    /// The first common name of the issuer, where the issuer has one and it
    /// is a string.
    pub issuer_common_name: Option<String>,
    /// The vendor extension.
    pub extension: ExtensionLookup,
}

/// The mathematical value of a [`LeafCertificate`].
pub struct LeafCertificateView {
    pub issuer_common_name: Option<Seq<char>>,
    pub extension: ExtensionLookupView,
}

impl View for LeafCertificate {
    type V = LeafCertificateView;

    open spec fn view(&self) -> LeafCertificateView {
        LeafCertificateView {
            issuer_common_name: text_of(self.issuer_common_name),
            extension: self.extension@,
        }
    }
}

/// The decoded contents of the first PEM block in `text`; `None` where
/// `text` holds no complete PEM block or its base64 text is not valid.
pub uninterp spec fn pem_contents(text: Seq<u8>) -> Option<Seq<u8>>;

/// What a DER-encoded X.509 certificate says of its issuer and of the
/// extension whose encoded object identifier is `extension`; `None` where
/// `der` does not begin with a well-formed certificate.
pub uninterp spec fn x509_leaf(der: Seq<u8>, extension: Seq<u8>) -> Option<LeafCertificateView>;

/// The contents of the DER SEQUENCE that `input` begins with, and what
/// follows the SEQUENCE in `input`; `None` where `input` begins with no
/// well-formed SEQUENCE.
pub uninterp spec fn der_sequence(input: Seq<u8>) -> Option<(Seq<u8>, Seq<u8>)>;

/// The object identifier that `input` begins with, in dotted decimal
/// notation, and what follows it in `input`; `None` where `input` begins
/// with no well-formed primitive DER element.
pub uninterp spec fn der_object_identifier(input: Seq<u8>) -> Option<(Seq<char>, Seq<u8>)>;

/// The contents of the DER OCTET STRING that `input` begins with, and what
/// follows it in `input`; `None` where `input` begins with no well-formed
/// OCTET STRING.
pub uninterp spec fn der_octet_string(input: Seq<u8>) -> Option<(Seq<u8>, Seq<u8>)>;

/// Whether `der` begins with a well-formed DER-encoded certificate
/// revocation list.
pub uninterp spec fn x509_crl_well_formed(der: Seq<u8>) -> bool;

/// Whether `x509_parser::parse_x509_crl` accepts `der`. The contract claims
/// only that the answer is a function of `der`.
#[verifier::external_body]
pub(crate) fn is_crl(der: &[u8]) -> (b: bool)
    ensures
        b == x509_crl_well_formed(der@),
{
    parse_x509_crl(der).is_ok()
}

/// Decodes the first PEM block of `text` with `x509_parser::pem::parse_x509_pem`
/// and hands out its contents. The contract claims only that the outcome is
/// a function of `text`.
#[verifier::external_body]
pub(crate) fn read_pem(text: &[u8]) -> (r: Option<Vec<u8>>)
    ensures
        r matches Some(contents) ==> pem_contents(text@) == Some(contents@),
        r is None ==> pem_contents(text@) is None,
{
    match parse_x509_pem(text) {
        Ok((_, pem)) => Some(pem.contents),
        Err(_) => None,
    }
}

/// Parses `der` with `x509_parser::parse_x509_certificate` and hands out the
/// first common name of the issuer (`X509Name::iter_common_name`, read with
/// `AttributeTypeAndValue::as_str`) and the outcome of
/// `X509Certificate::get_extension_unique` for the extension whose encoded
/// object identifier is `extension`. The contract claims only that the
/// outcome is a function of the two arguments.
#[verifier::external_body]
pub(crate) fn read_leaf_certificate(der: &[u8], extension: &[u8]) -> (r: Option<LeafCertificate>)
    ensures
        r matches Some(leaf) ==> x509_leaf(der@, extension@) == Some(leaf@),
        r is None ==> x509_leaf(der@, extension@) is None,
{
    let (_, cert) = parse_x509_certificate(der).ok()?;
    let name = cert.issuer().iter_common_name().next().and_then(|cn| cn.as_str().ok());
    let extension = match cert.get_extension_unique(&Oid::new(Cow::Borrowed(extension))) {
        Ok(Some(found)) => ExtensionLookup::Present(found.value.to_vec()),
        Ok(None) => ExtensionLookup::Absent,
        Err(_) => ExtensionLookup::Repeated,
    };
    Some(LeafCertificate { issuer_common_name: name.map(|s| s.to_string()), extension })
}

/// Reads one SEQUENCE with `asn1_rs::Sequence::from_der`. Beside naming the
/// outcome, the contract claims that the contents and the rest together are
/// shorter than the input: the parser takes the contents and the rest out of
/// the input, behind a header of at least two bytes.
#[verifier::external_body]
pub(crate) fn read_sequence(input: &[u8]) -> (r: Option<(Vec<u8>, Vec<u8>)>)
    ensures
        r matches Some((contents, rest)) ==> der_sequence(input@) == Some((contents@, rest@))
            && contents@.len() + rest@.len() < input@.len(),
        r is None ==> der_sequence(input@) is None,
{
    match Sequence::from_der(input) {
        Ok((rest, sequence)) => Some((sequence.content.to_vec(), rest.to_vec())),
        Err(_) => None,
    }
}

/// Reads one object identifier with `asn1_rs::Oid::from_der` and renders it
/// with `Oid::to_id_string`. The contract claims only that the outcome is a
/// function of `input`.
#[verifier::external_body]
pub(crate) fn read_object_identifier(input: &[u8]) -> (r: Option<(String, Vec<u8>)>)
    ensures
        r matches Some((id, rest)) ==> der_object_identifier(input@) == Some((id@, rest@)),
        r is None ==> der_object_identifier(input@) is None,
{
    match Oid::from_der(input) {
        Ok((rest, oid)) => Some((oid.to_id_string(), rest.to_vec())),
        Err(_) => None,
    }
}

/// Reads one OCTET STRING with `asn1_rs::OctetString::from_der`. The
/// contract claims only that the outcome is a function of `input`.
#[verifier::external_body]
pub(crate) fn read_octet_string(input: &[u8]) -> (r: Option<(Vec<u8>, Vec<u8>)>)
    ensures
        r matches Some((contents, rest)) ==> der_octet_string(input@) == Some((contents@, rest@)),
        r is None ==> der_octet_string(input@) is None,
{
    match OctetString::from_der(input) {
        Ok((rest, octets)) => Some((octets.as_ref().to_vec(), rest.to_vec())),
        Err(_) => None,
    }
}

} // verus!
