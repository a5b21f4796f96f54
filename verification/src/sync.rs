//! The synchronization engine: the contract every strategy implements,
//! the status it reports, and the control messages it accepts.

use vstd::prelude::*;

pub mod config;
pub mod crdt;
pub mod git;
pub mod model;
pub mod register;

verus! {

/// The outcome of one reconciliation pass.  Exactly one value is
/// returned per call; values are never combined.
#[derive(Clone, Copy, Debug, PartialEq, Eq, Structural)]
pub enum Status {
    /// No local repository handle exists; the host must provision one
    /// before synchronizing again.
    RepoNotConfigured,
    /// A repository was just provisioned and is ready for use.
    RepoConfigured,
    /// Local and remote agree; nothing was done.
    UpToDate,
    /// Local changes were committed and pushed to the remote.
    ChangesUploaded,
    /// The remote moved ahead; the host must send `SyncMessage::Update`
    /// to apply the pending remote changes.
    NewChangesDetected,
}

/// A control input to `handle`, kept as an open tagged union so new
/// control operations can be added without breaking the contract.
#[derive(Clone, Copy, Debug, PartialEq, Eq, Structural)]
pub enum SyncMessage {
    /// Apply the pending remote changes observed by a prior `sync`.
    Update,
}

/// The error kinds a reconciliation pass can surface.  Local
/// recoverable conditions (nothing to commit, missing repository) are
/// handled internally and never appear here.
#[derive(Clone, Debug, PartialEq, Eq)]
pub enum SyncError {
    /// No repository or peer is set up yet; recoverable by provisioning.
    NotConfigured,
    /// A fetch, push or connect failed; retryable.
    Network(String),
    /// A credential was rejected; surfaced to the user.
    Authentication(String),
    /// A merge conflict could not be resolved.
    Conflict(String),
    /// The local filesystem or repository database failed.
    Storage(String),
}

/// The binary decision requested from the host when a three-way merge
/// of the configuration file conflicts.
#[derive(Clone, Copy, Debug, PartialEq, Eq, Structural)]
pub enum ConflictChoice {
    /// Keep this device's version of the configuration file.
    KeepLocal,
    /// Keep the remote version of the configuration file.
    KeepRemote,
}

/// The conflict-prompt contract exposed to the host: when a merge
/// conflict is detected the engine asks for a binary decision and
/// suspends until answered.  Non-interactive hosts supply a
/// programmatic policy instead of a human prompt.
pub trait ConflictPrompt {
    /// Answer the pending conflict with one side to keep.
    fn resolve(&mut self) -> ConflictChoice;
}

/// The contract both reconciliation strategies implement.  The host
/// selects one implementation from the configuration's active service,
/// calls `sync`, and reacts to the returned status.
pub trait Synchronization {
    /// Perform one reconciliation pass and report what happened.
    fn sync(&mut self) -> Result<Status, SyncError>;

    /// Perform a control action implied by a prior `sync` result.
    fn handle(&mut self, message: SyncMessage) -> Result<(), SyncError>;
}

} // verus!
