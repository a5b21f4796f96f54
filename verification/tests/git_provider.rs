//! Tests of the version-control provider without a repository: every
//! operation must short-circuit instead of failing.

use symmetry::sync::git::SyncManager;
use symmetry::sync::{
    ConflictChoice, ConflictPrompt, Status, SyncError, SyncMessage, Synchronization,
};

struct AlwaysRemote;

impl ConflictPrompt for AlwaysRemote {
    fn resolve(&mut self) -> ConflictChoice {
        ConflictChoice::KeepRemote
    }
}

fn unconfigured() -> SyncManager<AlwaysRemote> {
    SyncManager::new("/nonexistent/symmetry-test-repository", AlwaysRemote)
}

#[test]
fn missing_repository_is_not_configured() {
    let manager = unconfigured();
    assert!(!manager.is_configured());
}

#[test]
fn sync_without_repository_reports_repo_not_configured() {
    let mut manager = unconfigured();
    assert_eq!(manager.sync(), Ok(Status::RepoNotConfigured));
    // The pass is safe to repeat and keeps reporting the same.
    assert_eq!(manager.sync(), Ok(Status::RepoNotConfigured));
}

#[test]
fn pull_without_repository_is_a_no_op() {
    let mut manager = unconfigured();
    assert_eq!(manager.pull(), Ok(()));
}

#[test]
fn set_upstream_without_repository_is_a_no_op() {
    let manager = unconfigured();
    assert_eq!(manager.set_upstream_branch(), Ok(()));
}

#[test]
fn handle_without_repository_fails() {
    let mut manager = unconfigured();
    let result = Synchronization::handle(&mut manager, SyncMessage::Update);
    assert_eq!(result, Err(SyncError::NotConfigured));
}

#[test]
fn trait_object_dispatch_works() {
    let mut provider: Box<dyn Synchronization> = Box::new(unconfigured());
    assert_eq!(provider.sync(), Ok(Status::RepoNotConfigured));
}
