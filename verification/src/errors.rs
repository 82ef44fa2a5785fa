//! The discriminated failure kinds of the engine.
//!
//! Every operation returns success or exactly one of these kinds. All
//! failures are local: no operation partially mutates state before failing.

use vstd::prelude::*;

verus! {

/// One discriminated failure kind per way an operation can be refused.
///
/// The variants fall into five groups:
/// - lifecycle gating: [`LifecycleBlocked`](EngineError::LifecycleBlocked)
///   and the three migration sequencing failures;
/// - authorization: identity, scope and role mismatches;
/// - field validation: empty, too long, malformed or out of range;
/// - capacity: a ceiling reached or checked arithmetic that would wrap;
/// - corruption: [`InternalInconsistency`](EngineError::InternalInconsistency),
///   an assumed invariant found violated in stored state (for example an
///   unrecognized stored phase value), which aborts rather than infers intent.
#[derive(Clone, Copy, PartialEq, Eq, Structural, Debug)]
pub enum EngineError {
    /// The lifecycle state machine currently refuses all writes.
    LifecycleBlocked,
    /// A migration was asked to start although none is required.
    MigrationNotRequired,
    /// A migration was asked to start while one is already in progress.
    MigrationAlreadyInProgress,
    /// A migration was asked to complete although none is in progress.
    MigrationNotInProgress,
    /// The signer is not the identity the operation is reserved to.
    IdentityMismatch,
    /// The access entry is scoped to a different resource.
    ScopeMismatch,
    /// The access entry holds none of the required roles.
    InsufficientRole,
    /// A roles bitmask carries bits outside the known role set.
    InvalidRoleBits,
    /// A required text field is empty.
    StringEmpty,
    /// A text field exceeds its configured maximum length.
    StringTooLong,
    /// A URL or URI fails the coarse shape check.
    MalformedUrl,
    /// A numeric argument lies outside its permitted range.
    ValueOutOfRange,
    /// A checked counter operation would overflow or underflow.
    CounterOverflow,
    /// The per-repository module ceiling is already reached.
    ResourceLimitReached,
    /// The lifetime soft cap on recorded observations would be exceeded.
    ObservationLimitReached,
    /// A per-call observation argument exceeds its maximum.
    DataTooLarge,
    /// The repository is deactivated.
    RepoInactive,
    /// The repository does not allow observation runs.
    ObservationNotAllowed,
    /// The global configuration is deactivated.
    ConfigInactive,
    /// Stored state violates an assumed invariant; treated as corruption.
    InternalInconsistency,
}

} // verus!
