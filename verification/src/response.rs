//! The response envelope: the three-way success/cancelled/other wrapper that
//! every portal operation returns, and its fixed wire shape.

use vstd::prelude::*;

verus! {

/// Wire code of a completed operation.
pub const PORTAL_RESPONSE_SUCCESS: u32 = 0;
/// Wire code of an operation aborted at the caller's request.
pub const PORTAL_RESPONSE_CANCELLED: u32 = 1;
/// Wire code of an operation that ended for any non-cancel reason.
pub const PORTAL_RESPONSE_OTHER: u32 = 2;

/// Outcome of one portal operation, wrapped in the uniform envelope that the
/// transport layer sends back to the caller.
pub enum PortalResponse<T> {
    /// The operation completed; carries the backend-specific payload.
    Success(T),
    /// The operation was aborted by caller request.
    Cancelled,
    /// The operation failed or ended for any non-cancel reason.
    Other,
}

/// A reply as the transport sends it: the two-element ordered structure
/// `(code, payload)`. A payload of `None` stands for the empty string-keyed
/// mapping that `Cancelled` and `Other` always carry on the wire.
pub struct WireReply<T> {
    pub code: u32,
    pub payload: Option<T>,
}

impl<T> PortalResponse<T> {
    /// The numeric code this response carries on the wire.
    pub open spec fn spec_code(&self) -> u32 {
        match self {
            PortalResponse::Success(_) => PORTAL_RESPONSE_SUCCESS,
            PortalResponse::Cancelled => PORTAL_RESPONSE_CANCELLED,
            PortalResponse::Other => PORTAL_RESPONSE_OTHER,
        }
    }

    /// The code of this response: 0 for success, 1 for cancelled, 2 otherwise.
    pub fn code(&self) -> (c: u32)
        ensures
            c == self.spec_code(),
    {
        match self {
            PortalResponse::Success(_) => PORTAL_RESPONSE_SUCCESS,
            PortalResponse::Cancelled => PORTAL_RESPONSE_CANCELLED,
            PortalResponse::Other => PORTAL_RESPONSE_OTHER,
        }
    }

    /// Encode this response for the transport: `Success(v)` becomes `(0, v)`;
    /// `Cancelled` and `Other` become `(1, {})` and `(2, {})`, independent of
    /// the payload type. Encoding never fails.
    pub fn to_wire(self) -> (w: WireReply<T>)
        ensures
            w.code == self.spec_code(),
            self matches PortalResponse::Success(v) ==> w.payload == Some(v),
            !(self is Success) ==> w.payload is None,
    {
        match self {
            PortalResponse::Success(v) => WireReply { code: PORTAL_RESPONSE_SUCCESS, payload: Some(v) },
            PortalResponse::Cancelled => WireReply { code: PORTAL_RESPONSE_CANCELLED, payload: None },
            PortalResponse::Other => WireReply { code: PORTAL_RESPONSE_OTHER, payload: None },
        }
    }
}

} // verus!
