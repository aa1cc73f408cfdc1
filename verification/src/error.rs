//! Typed failures surfaced by the entry operations.

use vstd::prelude::*;

verus! {

/// Every way an entry operation can fail.
///
/// Each failure terminates the current invocation; nothing is retried
/// inside this module.
#[derive(Debug, Clone, PartialEq, Eq)]
pub enum ContractError {
    /// The caller is not the manager, or a reply arrived under an id
    /// that was never handed out.
    NotAuthorized { reason: String },
    /// The host's address validator rejected a supplied address.
    Validation { reason: String },
    /// A ledger counter addition would exceed the representable range.
    Overflow,
    /// A required piece of persisted state (a pending mint expected to
    /// exist) is absent: a correlation bug or a double-resolution attempt.
    MissingState,
    /// The external call's reply carried a failure; its text is kept verbatim.
    UpstreamFailure { error: String },
}

} // verus!
