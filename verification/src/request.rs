//! The request object: a per-invocation handle the caller may close to ask
//! for cancellation of an in-flight operation.

use vstd::prelude::*;

verus! {

/// A per-operation cancellable handle. A passive protocol stub: it exists so
/// that every cancellable operation exposes a closable handle at a distinct
/// per-operation identity; the backend that created it wires any concrete
/// cancellation into it.
pub struct Request;

impl Request {
    /// Accepts a close call without failure, however often it is invoked;
    /// a well-behaved backend reacts only to the first. No return value, no
    /// observable side effect of its own.
    pub fn close(&self) {
    }
}

} // verus!
