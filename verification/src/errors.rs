use vstd::prelude::*;

verus! {

/// The kinds of failure this core reports to its callers.
///
/// Builder and signer failures are returned synchronously; submission
/// failures are either returned at accept time or delivered later through
/// the pending-submission tracker. None of them is fatal to the process.
#[derive(Clone, Copy, Debug, PartialEq, Eq, Structural)]
pub enum LedgerError {
    /// A malformed input document or a missing required field.
    InvalidStructure,
    /// A malformed identifier or a disallowed action type.
    Validation,
    /// An identifier or key absent from the wallet.
    NotFound,
    /// An internal failure on an already-validated document.
    InvalidState,
    /// The pool rejected a submission or returned a failure acknowledgement.
    Transport,
}

} // verus!
