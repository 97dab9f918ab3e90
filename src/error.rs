//! Errors reported by the library.

use vstd::prelude::*;

verus! {

/// What went wrong in a decode step or in a high-level operation.
#[derive(Debug, PartialEq, Eq)]
pub enum HeosError {
    /// The reply named a command that no reply variant covers.
    UnknownCommand(String),
    /// The device answered with a failure; the text it gave, if any.
    Failed(String),
    /// A group without a leader cannot take commands.
    NoLeader,
    /// A volume reply carried no usable `level`.
    InvalidLevel,
    /// A discovery response carried no `LOCATION` header.
    InvalidResponse,
    /// A location carried no host.
    InvalidLocation,
}

} // verus!
