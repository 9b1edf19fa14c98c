//! The failures of the report device.

use vstd::prelude::*;
use vstd::string::StringExecFns;
use crate::error::{ErrorView, TdxError};

verus! {

/// The ways in which the report device can fail.
#[derive(Debug, Clone, Eq, PartialEq)]
pub enum CocoError {
    /// The driver or the device failed.
    Firmware(String),
    /// Text or bytes could not be encoded or decoded.
    IO(String),
    /// The device could not be opened for want of privilege.
    Permission(String),
    /// The TPM stack failed.
    Tpm(String),
    /// A failure that fits no other kind.
    Unknown,
}

impl CocoError {
    /// The failure in words: its kind, a colon and what it carries; for
    /// `Unknown` the kind alone.
    pub open spec fn message_spec(&self) -> Seq<char> {
        match self {
            CocoError::Firmware(err) => "Firmware: "@ + err@,
            CocoError::IO(err) => "IO: "@ + err@,
            CocoError::Permission(err) => "Permission: "@ + err@,
            CocoError::Tpm(err) => "Tpm: "@ + err@,
            CocoError::Unknown => "Unknown"@,
        }
    }

    /// The same kind of failure of a run, with the same words.
    pub open spec fn as_tdx_error(&self) -> ErrorView {
        match self {
            CocoError::Firmware(err) => ErrorView::Firmware(err@),
            CocoError::IO(err) => ErrorView::IO(err@),
            CocoError::Permission(err) => ErrorView::Permission(err@),
            CocoError::Tpm(err) => ErrorView::Tpm(err@),
            CocoError::Unknown => ErrorView::Unknown,
        }
    }

    /// The failure in words.
    pub fn message(&self) -> (text: String)
        ensures
            text@ == self.message_spec(),
    {
        match self {
            CocoError::Firmware(err) => String::from_str("Firmware: ").concat(err.as_str()),
            CocoError::IO(err) => String::from_str("IO: ").concat(err.as_str()),
            CocoError::Permission(err) => String::from_str("Permission: ").concat(err.as_str()),
            CocoError::Tpm(err) => String::from_str("Tpm: ").concat(err.as_str()),
            CocoError::Unknown => String::from_str("Unknown"),
        }
    }

    /// The failure as a failure of the run in which the device was used.
    pub fn into_tdx_error(self) -> (e: TdxError)
        ensures
            e@ == self.as_tdx_error(),
    {
        match self {
            CocoError::Firmware(err) => TdxError::Firmware(err),
            CocoError::IO(err) => TdxError::IO(err),
            CocoError::Permission(err) => TdxError::Permission(err),
            CocoError::Tpm(err) => TdxError::Tpm(err),
            CocoError::Unknown => TdxError::Unknown,
        }
    }
}

} // verus!
