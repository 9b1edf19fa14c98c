//! Remote attestation for TDX guests: acquiring a quote, reading the platform
//! identity out of its certificate chain, assembling the collateral bundle and
//! encoding the journal that a proving backend commits to.

pub mod chain;
pub mod cli;
pub mod coco;
pub mod collateral;
pub mod der;
pub mod device;
pub mod encoding;
pub mod error;
pub mod evm_proof;
pub mod guest_input;
pub mod journal;
pub mod orchestrator;
pub mod session;
pub mod tdx;
pub mod utils;
