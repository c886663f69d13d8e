//! The library's model of an RPC failure.
//!
//! Remote calls can fail with a numeric gRPC status code and a message. The
//! negotiation and signing logic only ever reads the code, but the message is
//! kept so an operator sees what the remote side said.

use vstd::prelude::*;

verus! {

/// The gRPC status code a service answers with when the requested method is
/// not implemented (for the announcement service: its optional RPC services
/// were not compiled in).
pub const CODE_UNIMPLEMENTED: u32 = 12;

/// A failed remote call, as the library models it: the status code the
/// transport reported and the remote side's message.
#[derive(Debug, Clone)]
pub struct Status {
    pub code: u32,
    pub message: String,
}

impl Status {
    /// Pair a status code with its message.
    pub fn new(code: u32, message: String) -> (r: Status)
        ensures
            r.code == code,
            r.message == message,
    {
        Status { code, message }
    }
}

} // verus!
