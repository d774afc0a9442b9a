use vstd::prelude::*;

verus! {

/// Failure taxonomy of the attestation pipeline.
///
/// Every component surfaces its first failure as one of these kinds;
/// nothing is recovered locally and no partial-trust outcome exists.
#[derive(Clone, Copy, Debug, PartialEq, Eq, Structural)]
pub enum RaError {
    /// Connection or TLS failure while talking to the authority.
    Transport,
    /// A required response header is absent.
    Protocol,
    /// Base64 or percent-decoding of response material failed.
    Decode,
    /// The signing certificate does not chain to the pinned anchor,
    /// is outside its validity window, uses an unsupported algorithm,
    /// or is malformed.
    Certificate,
    /// The report signature does not verify over the report bytes.
    Signature,
    /// The quote runtime boundary reported a non-success status.
    Quote,
}

} // verus!
