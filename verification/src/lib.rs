//! Remote-attestation report retrieval and verification.
//!
//! The library builds the signed attestation request, parses the
//! authority's response into its body, signature and signing-certificate
//! parts, validates the signing certificate against a pinned trust
//! anchor, and verifies the report signature over the untouched body
//! bytes.  Network transport and the hardware quote boundary live with
//! the caller; everything here is plain computation on bytes.

pub mod attest;
pub mod crypto;
pub mod decode;
pub mod errors;
pub mod headers;
pub mod quote;
pub mod request;
pub mod transport;

pub use attest::{RAResponse, RAService, Report, ReportSig};
pub use errors::RaError;
