//! Driver core for a pair of USB AR glasses: decoding of the interrupt
//! packet formats, fusion of sensor samples into an ordered event stream,
//! and the arithmetic of the vendor control protocol.
//!
//! All I/O (USB control and interrupt transfers) lives outside this crate;
//! the functions here compute on plain values and are verified.

use vstd::prelude::*;

pub mod wire;
pub mod fusion;
pub mod session;
pub mod control;
pub mod text;

verus! {

/// Errors a session operation can report.
///
/// Transport failures are produced by the I/O layer and carried through;
/// the other variants are produced by the logic in this crate.
#[derive(Clone, Copy, Debug, PartialEq, Eq, Structural)]
pub enum Error {
    /// The transport itself failed (disconnect, timeout, permissions).
    Transport,
    /// A control read returned a different number of bytes than expected.
    Protocol,
    /// A control write sent fewer bytes than requested.
    WriteIncomplete,
    /// The requested display mode has no outbound wire code.
    UnsupportedDisplayMode,
    /// The expected interrupt endpoint was not found on the device.
    EndpointNotFound,
}

impl Error {
    /// A fixed human-readable description of the error kind.
    pub fn description(&self) -> (r: &'static str)
        ensures
            r@ == error_description(*self),
    {
        proof {
            reveal_strlit("transport error");
            reveal_strlit("protocol error");
            reveal_strlit("incomplete write");
            reveal_strlit("display mode not supported");
            reveal_strlit("endpoint not found");
        }
        match self {
            Error::Transport => "transport error",
            Error::Protocol => "protocol error",
            Error::WriteIncomplete => "incomplete write",
            Error::UnsupportedDisplayMode => "display mode not supported",
            Error::EndpointNotFound => "endpoint not found",
        }
    }
}

/// The description each error kind prints as.
pub open spec fn error_description(e: Error) -> Seq<char> {
    match e {
        Error::Transport => "transport error"@,
        Error::Protocol => "protocol error"@,
        Error::WriteIncomplete => "incomplete write"@,
        Error::UnsupportedDisplayMode => "display mode not supported"@,
        Error::EndpointNotFound => "endpoint not found"@,
    }
}

} // verus!
