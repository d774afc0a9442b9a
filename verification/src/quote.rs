use vstd::prelude::*;

verus! {

use crate::errors::RaError;

/// Fixed size of the buffer a quote provider fills; no quote is ever
/// longer than this.
pub const QUOTE_BUFFER_LEN: usize = 2048;

/// The status value with which the runtime boundary reports success.
pub const STATUS_SUCCESS: u32 = 0;

/// Interpret the two status values of the provider's
/// quote-initialisation call: `call_status` from the boundary crossing
/// itself, `op_status` from the operation behind it.  Success exactly
/// when both report success; everything else is fatal to the attempt.
pub fn init_quote_outcome(call_status: u32, op_status: u32) -> (r: Result<(), RaError>)
    ensures
        r is Ok <==> call_status == STATUS_SUCCESS && op_status == STATUS_SUCCESS,
        r matches Err(e) ==> e == RaError::Quote,
{
    if call_status != STATUS_SUCCESS || op_status != STATUS_SUCCESS {
        Err(RaError::Quote)
    } else {
        Ok(())
    }
}

/// Interpret the provider's quote call: on success, the quote is the
/// provider-filled buffer truncated to the length the provider
/// reported, and never more than the buffer holds, whatever length it
/// claims; on any non-success status the attempt fails with `Quote`.
pub fn get_quote_outcome(call_status: u32, op_status: u32, buf: Vec<u8>, reported_len: u32) -> (r:
    Result<Vec<u8>, RaError>)
    ensures
        r matches Ok(q) ==> call_status == STATUS_SUCCESS && op_status == STATUS_SUCCESS && q@ == (
        if reported_len as int <= buf@.len() {
            buf@.subrange(0, reported_len as int)
        } else {
            buf@
        }) && q@.len() <= buf@.len(),
        r matches Err(e) ==> e == RaError::Quote && !(call_status == STATUS_SUCCESS && op_status
            == STATUS_SUCCESS),
{
    if call_status != STATUS_SUCCESS || op_status != STATUS_SUCCESS {
        return Err(RaError::Quote);
    }
    let ghost b0 = buf@;
    let mut q = buf;
    let limit: usize = if (reported_len as usize) < q.len() {
        reported_len as usize
    } else {
        q.len()
    };
    q.truncate(limit);
    proof {
        if reported_len as int <= b0.len() {
            assert(q@ =~= b0.subrange(0, reported_len as int));
        } else {
            assert(q@ =~= b0);
        }
    }
    Ok(q)
}

} // verus!
