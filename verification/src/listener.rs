//! The listener's decisions.
//!
//! The listener binds one loopback TCP port and accepts connections
//! forever. Only two decisions belong to it, and both are fixed here: how
//! the process must end when the bind fails, and what becomes of one
//! accept result.

use vstd::prelude::*;

verus! {

/// Why binding the listening port failed.
#[derive(Clone, Copy, PartialEq, Eq, Debug)]
pub enum BindFailure {
    /// Another process already holds the port.
    PortInUse,
    /// Any other operating-system failure.
    Other,
}

/// How the process must end after a bind failure; both ways are fatal.
#[derive(Clone, Copy, PartialEq, Eq, Debug)]
pub enum StartupExit {
    /// Report that the port is taken and exit with a non-zero status.
    ExitNonZero,
    /// Terminate abnormally on the unexpected failure.
    Abort,
}

/// A bind failure is always fatal: a taken port gets the clear
/// diagnostic and a non-zero exit, anything else ends the process
/// abnormally.
pub fn bind_failure_exit(failure: &BindFailure) -> (r: StartupExit)
    ensures
        r is ExitNonZero <==> failure is PortInUse,
        r is Abort <==> failure is Other,
{
    match failure {
        BindFailure::PortInUse => StartupExit::ExitNonZero,
        BindFailure::Other => StartupExit::Abort,
    }
}

/// What the listener does with one accept result.
#[derive(Clone, Copy, PartialEq, Eq, Debug)]
pub enum AcceptDisposition {
    /// Hand the connection to a new concurrent session.
    RunSession,
    /// Log the accept error and keep accepting; it never stops the
    /// listener.
    ContinueListening,
}

/// An accepted connection starts a session; a failed accept is logged
/// and the listener goes on. No accept outcome terminates the listener.
pub fn accept_disposition(accepted: bool) -> (r: AcceptDisposition)
    ensures
        r is RunSession <==> accepted,
        r is ContinueListening <==> !accepted,
{
    if accepted {
        AcceptDisposition::RunSession
    } else {
        AcceptDisposition::ContinueListening
    }
}

} // verus!
