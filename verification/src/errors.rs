//! The ways in which the ledger and the orchestrator refuse or fail.

use crate::kind::ResourceKind;
use vstd::prelude::*;

verus! {

/// The ledger's input is invalid or contradicts itself. Never retried.
#[derive(Clone, Copy, Debug, PartialEq, Eq, Structural)]
pub enum ConfigError {
    /// No region is named.
    EmptyRegion,
    /// No storage bucket is named.
    EmptyBucketName,
    /// Some of the backup coordinates are given and some are not.
    PartialBackup,
    /// The named bucket exists and belongs to another account.
    ForeignBucket,
    /// A stored record holds some identifiers of a resource and lacks others.
    PartialRecord(ResourceKind),
}

/// An invariant of the ledger would be broken. A fault of the caller's
/// logic; never retried.
#[derive(Clone, Copy, Debug, PartialEq, Eq, Structural)]
pub enum StateError {
    /// The resource is on record already; its identifiers are not overwritten.
    AlreadyCreated(ResourceKind),
    /// The caller's identity is on record already.
    IdentityAlreadySet,
    /// A resource has been recorded, so the configuration no longer changes.
    ConfigFrozen,
    /// Identifiers were reported for another resource than the one in progress.
    UnexpectedOutputs(ResourceKind),
    /// An event was reported that answers no request in progress.
    UnexpectedEvent,
}

/// Why a run of the orchestrator ended before its plan was complete.
#[derive(Clone, Copy, Debug, PartialEq, Eq, Structural)]
pub enum Failure {
    /// The ledger was rejected before any step.
    Config(ConfigError),
    /// The caller's identity is not known.
    Identity,
    /// The provider failed a call for this kind, as often as the policy
    /// allows to try.
    Provisioning(ResourceKind),
    /// The resource of this kind did not become stable within the time
    /// the policy allows.
    Timeout(ResourceKind),
    /// The ledger refused a change.
    State(StateError),
}

} // verus!
