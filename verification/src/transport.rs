use vstd::prelude::*;

verus! {

use crate::errors::RaError;

/// A blocking transport that writes raw request bytes and hands back
/// the raw response bytes of one round-trip.  Implementations live
/// with the caller — a TLS stream in production, a double in tests —
/// and nothing is promised of what they return.
pub trait ClientTransport {
    fn send(&mut self, req: &[u8]) -> Result<Vec<u8>, RaError>;
}

} // verus!
