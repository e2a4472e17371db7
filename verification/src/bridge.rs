//! The bridge endpoint: the one domain operation offered to the
//! transport layer.
//!
//! A request carries an opaque byte payload. Its length must equal the
//! expected frame size exactly; a mismatch is rejected with a diagnostic
//! reason before the bus is touched. A payload of the right length is
//! forwarded to the bus, and the write's outcome is shaped into the
//! response returned to the caller.

use vstd::prelude::*;

use crate::decimal::{spec_decimal, u16_to_decimal};

verus! {

/// Number of bytes in one full frame for the attached peripheral.
pub const DATA_LEN: u16 = 7868;

/// A decoded request payload: the raw bytes of one frame.
#[derive(Debug, Clone)]
pub struct Data {
    pub raw: Vec<u8>,
}

/// The structured response handed back to the transport layer: either the
/// number of bytes that reached the bus, or a human-readable reason.
#[derive(Debug, Clone, PartialEq, Eq)]
pub enum BridgeResponse {
    Success { bytes_written: usize },
    Failure { reason: String },
}

/// The diagnostic reason reported when a payload's length is not `n`.
pub open spec fn spec_length_reason(n: nat) -> Seq<char> {
    "raw_data is not "@ + spec_decimal(n) + " bytes long"@
}

/// Builds the diagnostic reason for a payload whose length is not `data_len`.
pub fn length_error_reason(data_len: u16) -> (s: String)
    ensures
        s@ == spec_length_reason(data_len as nat),
{
    let mut s = String::from_str("raw_data is not ");
    let digits = u16_to_decimal(data_len);
    s.append(digits.as_str());
    s.append(" bytes long");
    proof {
        assert(s@ =~= spec_length_reason(data_len as nat));
    }
    s
}

/// Screens a payload before the bus is involved.
///
/// Returns `None` exactly when the payload holds `data_len` bytes and may
/// be forwarded to the bus; otherwise returns the rejection response that
/// the caller must send back without performing any write.
pub fn screen_frame(data: &Data, data_len: u16) -> (r: Option<BridgeResponse>)
    ensures
        r is None <==> data.raw.len() == data_len as usize,
        r matches Some(resp) ==> resp matches BridgeResponse::Failure { reason }
            && reason@ == spec_length_reason(data_len as nat),
{
    if data.raw.len() == data_len as usize {
        None
    } else {
        Some(BridgeResponse::Failure { reason: length_error_reason(data_len) })
    }
}

/// Shapes the response for a forwarded frame from the outcome of the bus
/// write: the transferred byte count verbatim on success, the error's
/// description verbatim on failure.
pub fn write_response(outcome: Result<usize, String>) -> (r: BridgeResponse)
    ensures
        outcome matches Ok(n) ==> r == (BridgeResponse::Success { bytes_written: n }),
        outcome matches Err(e) ==> r == (BridgeResponse::Failure { reason: e }),
{
    match outcome {
        Ok(n) => BridgeResponse::Success { bytes_written: n },
        Err(e) => BridgeResponse::Failure { reason: e },
    }
}

} // verus!
