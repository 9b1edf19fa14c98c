//! The failures that a run can end in.

use vstd::prelude::*;

verus! {

/// The collateral artifacts a verification bundle is made of.
#[derive(Debug, Clone, Copy, PartialEq, Eq, Structural)]
pub enum Artifact {
    RootCaCrl,
    PlatformCrl,
    SigningCa,
    RootCa,
    TcbInfo,
    EnclaveIdentity,
}

/// Every way in which a step of the pipeline can fail.
///
/// The first four variants and `Unknown` are the failures of the report
/// device.
#[derive(Debug, Clone, PartialEq, Eq)]
pub enum TdxError {
    /// The driver or the device failed.
    Firmware(String),
    /// Text or bytes could not be encoded or decoded.
    IO(String),
    /// The device could not be opened for want of privilege.
    Permission(String),
    /// The TPM stack failed.
    Tpm(String),
    /// The request itself is not acceptable for the device.
    InvalidRequest(String),
    /// The certificate data of the quote holds no certificate.
    NoCertificatesFound,
    /// The leaf certificate is not a well-formed PEM-wrapped X.509 certificate.
    MalformedCertificate,
    /// The issuer of the leaf certificate is none of the known ones; the
    /// common name that was read is carried along (empty if there was none).
    UnrecognizedIssuer(String),
    /// The leaf certificate has no vendor extension.
    ExtensionMissing,
    /// The vendor extension does not hold a six-byte platform identifier
    /// where one is expected.
    MalformedExtension,
    /// A collateral artifact has not the structure it must have.
    EncodingError,
    /// The named artifact could not be supplied.
    MissingCollateral(Artifact),
    /// The verification oracle rejected the quote; its words are carried along.
    VerificationFailed(String),
    /// The journal ends before its declared contents do.
    TruncatedJournal,
    /// A failure that fits no other kind.
    Unknown,
}

pub type Result<T> = core::result::Result<T, TdxError>;

/// The mathematical value of a [`TdxError`]: the same kinds, with the text
/// each carries as a sequence of characters.
pub enum ErrorView {
    Firmware(Seq<char>),
    IO(Seq<char>),
    Permission(Seq<char>),
    Tpm(Seq<char>),
    InvalidRequest(Seq<char>),
    NoCertificatesFound,
    MalformedCertificate,
    UnrecognizedIssuer(Seq<char>),
    ExtensionMissing,
    MalformedExtension,
    EncodingError,
    MissingCollateral(Artifact),
    VerificationFailed(Seq<char>),
    TruncatedJournal,
    Unknown,
}

impl View for TdxError {
    type V = ErrorView;

    open spec fn view(&self) -> ErrorView {
        match self {
            TdxError::Firmware(s) => ErrorView::Firmware(s@),
            TdxError::IO(s) => ErrorView::IO(s@),
            TdxError::Permission(s) => ErrorView::Permission(s@),
            TdxError::Tpm(s) => ErrorView::Tpm(s@),
            TdxError::InvalidRequest(s) => ErrorView::InvalidRequest(s@),
            TdxError::NoCertificatesFound => ErrorView::NoCertificatesFound,
            TdxError::MalformedCertificate => ErrorView::MalformedCertificate,
            TdxError::UnrecognizedIssuer(s) => ErrorView::UnrecognizedIssuer(s@),
            TdxError::ExtensionMissing => ErrorView::ExtensionMissing,
            TdxError::MalformedExtension => ErrorView::MalformedExtension,
            TdxError::EncodingError => ErrorView::EncodingError,
            TdxError::MissingCollateral(a) => ErrorView::MissingCollateral(*a),
            TdxError::VerificationFailed(s) => ErrorView::VerificationFailed(s@),
            TdxError::TruncatedJournal => ErrorView::TruncatedJournal,
            TdxError::Unknown => ErrorView::Unknown,
        }
    }
}

} // verus!
