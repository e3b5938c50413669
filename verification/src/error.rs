//! The ways in which a ledger operation is refused.

use vstd::prelude::*;

verus! {

/// Why a ledger operation was refused. Every refusal is decided before
/// anything is changed, so a refused operation leaves the ledger as it was.
#[derive(Debug, Clone, Copy, PartialEq, Eq, Structural)]
pub enum Error {
    /// The caller is not among the owners of the log name.
    NotAnOwner,
    /// Nothing was ever written under the log name, so it has no owners.
    UnknownLog,
    /// The log name already has a pending claim.
    AlreadyOpenForClaim,
    /// The log name has no pending claim.
    NoOpenClaim,
    /// The pending claim designates another account.
    NotTheAssignedClaimer,
}

impl Error {
    /// The name of the rule that was broken.
    pub fn as_str(&self) -> (name: &'static str)
        ensures
            name@ == match *self {
                Error::NotAnOwner => "NotAnOwner"@,
                Error::UnknownLog => "UnknownLog"@,
                Error::AlreadyOpenForClaim => "AlreadyOpenForClaim"@,
                Error::NoOpenClaim => "NoOpenClaim"@,
                Error::NotTheAssignedClaimer => "NotTheAssignedClaimer"@,
            },
    {
        match self {
            Error::NotAnOwner => "NotAnOwner",
            Error::UnknownLog => "UnknownLog",
            Error::AlreadyOpenForClaim => "AlreadyOpenForClaim",
            Error::NoOpenClaim => "NoOpenClaim",
            Error::NotTheAssignedClaimer => "NotTheAssignedClaimer",
        }
    }
}

} // verus!
