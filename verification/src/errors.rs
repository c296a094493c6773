//! Typed error kinds for identity creation, envelope construction,
//! submission, and state queries.
use vstd::prelude::*;

verus! {

/// Failure while creating an identity.
#[derive(Debug, Clone, Copy, PartialEq, Eq, Structural)]
pub enum IdentityError {
    /// The operating-system randomness source failed (fatal).
    RandomnessFailure,
    /// A caller-supplied seed did not have the required 32 bytes.
    InvalidSeed,
}

/// Failure while assembling a transaction envelope.
#[derive(Debug, Clone, Copy, PartialEq, Eq, Structural)]
pub enum BuildError {
    /// Some payload or sender text holds a non-ASCII character, which the
    /// canonical wire encoding cannot carry.
    NonAsciiText,
}

/// Why a node rejected a submitted transaction. Each kind is distinguishable
/// so a caller can decide what to correct before retrying.
#[derive(Debug, Clone, Copy, PartialEq, Eq, Structural)]
pub enum RejectionKind {
    /// The sequence number no longer matches the account's expected next one;
    /// retryable after re-fetching the sequence number.
    StaleSequenceNumber,
    /// The signature did not verify against the sender's key.
    InvalidSignature,
    /// The sender cannot cover the transaction.
    InsufficientFunds,
    /// A published module failed the node's validation.
    ModuleValidation,
    /// A rejection the client does not further classify.
    Other,
}

/// Failure of a transaction submission.
#[derive(Debug, Clone, Copy, PartialEq, Eq, Structural)]
pub enum SubmitError {
    /// The node could not be reached; retryable.
    Transport,
    /// The node answered but rejected the transaction.
    Rejected(RejectionKind),
    /// The node's answer could not be understood.
    MalformedResponse,
}

/// Failure of a read-only state query. Absence of a resource is *not* an
/// error; it is reported as `Ok(None)` by the query functions.
#[derive(Debug, Clone, Copy, PartialEq, Eq, Structural)]
pub enum QueryError {
    /// The node could not be reached; retryable.
    Transport,
    /// The node answered with a body the client could not interpret.
    MalformedResponse,
    /// The node answered with a status the client does not handle.
    UnexpectedStatus,
}

} // verus!
