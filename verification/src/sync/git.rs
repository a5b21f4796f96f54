//! The version-control-backed strategy.
//!
//! The repository work — status inspection, fetch, merge, commit,
//! push — is done by the `git2` library behind trusted wrappers, with
//! credentials negotiated per remote operation by `git2_credentials`.
//! The decision sequence around those calls is verified here and is
//! the one modelled and proved in [`crate::sync::model`]: not
//! configured, dirty, behind, or current, decided in that order.

use vstd::prelude::*;

use crate::sync::model::{spec_sync, tips_agree, MergeAnalysis, ModelView};
use crate::sync::{ConflictChoice, ConflictPrompt, Status, SyncError, SyncMessage, Synchronization};

verus! {

/// The handle to the local working directory, kept opaque.
#[verifier::external_type_specification]
#[verifier::external_body]
pub struct ExRepository(git2::Repository);

/// The error type of the `git2` library, kept opaque.
#[verifier::external_type_specification]
#[verifier::external_body]
pub struct ExGitError(git2::Error);

/// The callback set handed to remote operations, kept opaque.
#[verifier::external_type_specification]
#[verifier::external_body]
pub struct ExRemoteCallbacks<'a>(git2::RemoteCallbacks<'a>);

/// Relies on git2::Repository::open: a handle to the repository at
/// `path`, or `None` when none can be opened there.
#[verifier::external_body]
fn open_repo(path: &str) -> Option<git2::Repository> {
    git2::Repository::open(path).ok()
}

/// Relies on git2::Error::class and git2::Error::message: sort a
/// failure into the engine's error kinds by the failing subsystem,
/// keeping its message as context.
#[verifier::external_body]
fn classify(e: git2::Error) -> SyncError {
    let msg = e.message().to_string();
    match e.class() {
        git2::ErrorClass::Net | git2::ErrorClass::Http | git2::ErrorClass::Ssh
        | git2::ErrorClass::Ssl => SyncError::Network(msg),
        git2::ErrorClass::Callback => SyncError::Authentication(msg),
        git2::ErrorClass::Merge | git2::ErrorClass::Checkout => SyncError::Conflict(msg),
        _ => SyncError::Storage(msg),
    }
}

/// Relies on git2::Config::open_default and
/// git2_credentials::CredentialHandler: callbacks that answer each
/// credential request by negotiating from the user's git
/// configuration; nothing is cached across operations.
#[verifier::external_body]
fn callbacks() -> Result<git2::RemoteCallbacks<'static>, git2::Error> {
    let git_config = git2::Config::open_default()?;
    let mut handler = git2_credentials::CredentialHandler::new(git_config);
    let mut cb = git2::RemoteCallbacks::new();
    cb.credentials(move |url, username, allowed| {
        handler.try_next_credential(url, username, allowed)
    });
    Ok(cb)
}

/// Relies on git2::Repository::statuses with untracked files
/// included: whether the working directory holds uncommitted changes.
#[verifier::external_body]
fn worktree_dirty(repo: &git2::Repository) -> Result<bool, git2::Error> {
    let mut options = git2::StatusOptions::new();
    options.include_untracked(true);
    let statuses = repo.statuses(Some(&mut options))?;
    Ok(!statuses.is_empty())
}

/// Relies on git2::Branch::upstream and git2::Branch::set_upstream:
/// bind the local branch to its remote tracking branch when it is not
/// bound yet.
#[verifier::external_body]
fn ensure_upstream(repo: &git2::Repository) -> Result<(), git2::Error> {
    let mut branch = repo.find_branch("main", git2::BranchType::Local)?;
    if branch.upstream().is_err() {
        let upstream = repo.find_branch("origin/main", git2::BranchType::Remote)?;
        branch.set_upstream(upstream.name()?)?;
    }
    Ok(())
}

/// Relies on git2::Remote::fetch: bring the remote tracking branch up
/// to date, authenticating through the given callbacks.
#[verifier::external_body]
fn fetch_remote(repo: &git2::Repository, cb: git2::RemoteCallbacks<'static>) -> Result<
    (),
    git2::Error,
> {
    let mut opts = git2::FetchOptions::new();
    opts.remote_callbacks(cb);
    let mut remote = repo.find_remote("origin")?;
    remote.fetch(&["main"], Some(&mut opts), None)?;
    Ok(())
}

/// Relies on git2::Branch::get and git2::Reference::target: the
/// commit identifier at the tip of the local or the remote tracking
/// branch, as bytes, or `None` when the branch has no target.
#[verifier::external_body]
fn branch_tip(repo: &git2::Repository, remote_branch: bool) -> Result<Option<Vec<u8>>, git2::Error> {
    let branch = if remote_branch {
        repo.find_branch("origin/main", git2::BranchType::Remote)?
    } else {
        repo.find_branch("main", git2::BranchType::Local)?
    };
    Ok(branch.get().target().map(|oid| oid.as_bytes().to_vec()))
}

/// Relies on git2::Repository::merge_analysis against the fetched
/// remote tracking branch: already contained, fast-forwardable, or in
/// need of a true merge.
#[verifier::external_body]
fn analyze_remote(repo: &git2::Repository) -> Result<MergeAnalysis, git2::Error> {
    let upstream = repo.find_branch("origin/main", git2::BranchType::Remote)?;
    let annotated = repo.reference_to_annotated_commit(upstream.get())?;
    let (analysis, _) = repo.merge_analysis(&[&annotated])?;
    Ok(
        if analysis.is_up_to_date() {
            MergeAnalysis::UpToDate
        } else if analysis.is_fast_forward() {
            MergeAnalysis::FastForward
        } else {
            MergeAnalysis::Merge
        },
    )
}

/// Relies on git2::Reference::set_target and
/// git2::Repository::checkout_head: move the local branch pointer to
/// the remote tip and update the working directory; no commit is
/// created.
#[verifier::external_body]
fn fast_forward(repo: &git2::Repository) -> Result<(), git2::Error> {
    let upstream = repo.find_branch("origin/main", git2::BranchType::Remote)?;
    let oid = upstream.get().target().ok_or_else(
        || git2::Error::from_str("remote branch has no target"),
    )?;
    let mut reference = repo.find_reference("refs/heads/main")?;
    reference.set_target(oid, "fast-forward")?;
    repo.set_head("refs/heads/main")?;
    repo.checkout_head(Some(git2::build::CheckoutBuilder::default().force()))?;
    Ok(())
}

/// Relies on git2::Repository::merge_commits without failing on
/// conflicts: whether a three-way merge of the two tips would leave
/// conflicting hunks.
#[verifier::external_body]
fn merge_would_conflict(repo: &git2::Repository) -> Result<bool, git2::Error> {
    let local = repo.find_branch("main", git2::BranchType::Local)?.get().peel_to_commit()?;
    let remote = repo.find_branch("origin/main", git2::BranchType::Remote)?.get().peel_to_commit()?;
    let mut opts = git2::MergeOptions::new();
    opts.fail_on_conflict(false);
    let index = repo.merge_commits(&local, &remote, Some(&opts))?;
    Ok(index.has_conflicts())
}

/// Relies on git2::Repository::merge of the fetched head: apply the
/// merge to the index and working directory.
#[verifier::external_body]
fn merge_fetch_head(repo: &git2::Repository) -> Result<(), git2::Error> {
    let reference = repo.find_reference("FETCH_HEAD")?;
    let annotated = repo.reference_to_annotated_commit(&reference)?;
    repo.merge(&[&annotated], Some(&mut git2::MergeOptions::new()), None)?;
    Ok(())
}

/// Relies on git2::Repository::checkout_head forced: resolve the
/// conflicted merge by keeping this device's version of the files.
#[verifier::external_body]
fn keep_local_worktree(repo: &git2::Repository) -> Result<(), git2::Error> {
    let mut co = git2::build::CheckoutBuilder::new();
    co.force();
    repo.checkout_head(Some(&mut co))?;
    repo.index()?.write()?;
    Ok(())
}

/// Relies on git2::Repository::checkout_tree of the remote tip:
/// resolve the conflicted merge by keeping the remote version of the
/// files.
#[verifier::external_body]
fn keep_remote_worktree(repo: &git2::Repository) -> Result<(), git2::Error> {
    let remote = repo.find_branch("origin/main", git2::BranchType::Remote)?.get().peel_to_commit()?;
    let tree = remote.tree()?;
    let mut co = git2::build::CheckoutBuilder::new();
    co.force();
    repo.checkout_tree(tree.as_object(), Some(&mut co))?;
    let mut index = repo.index()?;
    index.read_tree(&tree)?;
    index.write()?;
    Ok(())
}

/// Relies on git2::Repository::commit: record the merged index as a
/// merge commit with both tips as parents, then clear the merge
/// state.
#[verifier::external_body]
fn commit_merge(repo: &git2::Repository) -> Result<(), git2::Error> {
    let signature = repo.signature()?;
    let tree_oid = repo.index()?.write_tree()?;
    let tree = repo.find_tree(tree_oid)?;
    let head = repo.head()?.peel_to_commit()?;
    let remote = repo.find_branch("origin/main", git2::BranchType::Remote)?.get().peel_to_commit()?;
    repo.commit(
        Some("HEAD"),
        &signature,
        &signature,
        "Merge changes from remote branch",
        &tree,
        &[&head, &remote],
    )?;
    repo.cleanup_state()?;
    Ok(())
}

/// Relies on git2::Index::add_all: stage every change, untracked
/// files included.
#[verifier::external_body]
fn stage_all(repo: &git2::Repository) -> Result<(), git2::Error> {
    let mut index = repo.index()?;
    index.add_all(["*"].iter(), git2::IndexAddOption::DEFAULT, None)?;
    index.write()?;
    Ok(())
}

/// Relies on git2::Repository::commit: record the staged changes
/// under the engine's fixed authorship and message, on top of the
/// current head or as the first commit.
#[verifier::external_body]
fn commit_staged(repo: &git2::Repository) -> Result<(), git2::Error> {
    let signature = git2::Signature::now("Symmetry", "symmetry@proton.me")?;
    let mut index = repo.index()?;
    let tree = repo.find_tree(index.write_tree()?)?;
    let message = "Update configuration.";
    match repo.head() {
        Ok(head) => {
            let parent = head.peel_to_commit()?;
            repo.commit(Some("HEAD"), &signature, &signature, message, &tree, &[&parent])?;
        },
        Err(_) => {
            repo.commit(Some("HEAD"), &signature, &signature, message, &tree, &[])?;
        },
    }
    Ok(())
}

/// Relies on git2::Remote::push of the local branch to its remote
/// counterpart, authenticating through the given callbacks.
#[verifier::external_body]
fn push_main(repo: &git2::Repository, cb: git2::RemoteCallbacks<'static>) -> Result<
    (),
    git2::Error,
> {
    let mut opts = git2::PushOptions::new();
    opts.remote_callbacks(cb);
    let mut remote = repo.find_remote("origin")?;
    remote.push(&["refs/heads/main:refs/heads/main"], Some(&mut opts))?;
    Ok(())
}

/// Compare two commit identifiers byte for byte.
fn bytes_equal(a: &Vec<u8>, b: &Vec<u8>) -> (r: bool)
    ensures
        r == (a@ == b@),
{
    if a.len() != b.len() {
        return false;
    }
    let mut i: usize = 0;
    while i < a.len()
        invariant
            0 <= i <= a.len(),
            a@.len() == b@.len(),
            forall|j: int| 0 <= j < i ==> a@[j] == b@[j],
        decreases a.len() - i,
    {
        if a[i] != b[i] {
            return false;
        }
        i += 1;
    }
    proof {
        assert(a@ =~= b@);
    }
    true
}

/// What a pass must report for each combination of findings: no
/// repository handle, uncommitted local changes, a remote that moved
/// ahead, or nothing at all, decided in that order.
pub open spec fn spec_status(configured: bool, dirty: bool, pending: bool) -> Status {
    if !configured {
        Status::RepoNotConfigured
    } else if dirty {
        Status::ChangesUploaded
    } else if pending {
        Status::NewChangesDetected
    } else {
        Status::UpToDate
    }
}

/// Decide the status of a pass over a configured repository from
/// what the pass found.
fn decide_status(dirty: bool, pending: bool) -> (s: Status)
    ensures
        s == spec_status(true, dirty, pending),
{
    if dirty {
        Status::ChangesUploaded
    } else if pending {
        Status::NewChangesDetected
    } else {
        Status::UpToDate
    }
}

/// The provider's decision rule and the modelled pass agree: on a
/// configured repository the model reports exactly the status that
/// [`spec_status`] assigns to what the pass found — a dirty working
/// tree, or a remote tip that differs from the local tip.
pub proof fn lemma_decision_matches_model(m: ModelView, choice: ConflictChoice, id: int)
    ensures
        spec_sync(m, choice, id).status == spec_status(
            true,
            m.worktree is Some,
            !tips_agree(m.local, m.remote),
        ),
{
}

/// The provider of the version-control strategy: an optional open
/// handle to the local working directory, and the host's answer point
/// for merge conflicts.
pub struct SyncManager<P: ConflictPrompt> {
    /// The open repository handle; `None` means not configured, and
    /// every operation short-circuits.
    repo: Option<git2::Repository>,
    /// Asked to resolve a merge conflict, at most once per pull.
    prompt: P,
}

impl<P: ConflictPrompt> SyncManager<P> {
    /// Whether a repository handle is held.
    pub closed spec fn configured(&self) -> bool {
        self.repo is Some
    }

    /// Open the provider on the repository at `path`.  When no
    /// repository exists there, every pass reports
    /// `Status::RepoNotConfigured` until one is provisioned out of
    /// band.
    pub fn new(path: &str, prompt: P) -> Self {
        let repo = open_repo(path);
        SyncManager { repo, prompt }
    }

    /// Whether the provider holds a repository handle.
    pub fn is_configured(&self) -> (r: bool)
        ensures
            r == self.configured(),
    {
        match &self.repo {
            Some(_) => true,
            None => false,
        }
    }

    /// Bind the local branch to its remote tracking branch if it is
    /// not bound yet.  Without a repository there is nothing to bind.
    pub fn set_upstream_branch(&self) -> (r: Result<(), SyncError>)
        ensures
            !self.configured() ==> r == Ok::<(), SyncError>(()),
    {
        match &self.repo {
            None => Ok(()),
            Some(repo) => match ensure_upstream(repo) {
                Ok(_) => Ok(()),
                Err(e) => Err(classify(e)),
            },
        }
    }

    /// Fetch the remote tracking branch and compare its tip to the
    /// local tip.  Without a repository nothing is pending.
    fn updates_pending(&self) -> (r: Result<bool, SyncError>)
        ensures
            !self.configured() ==> r == Ok::<bool, SyncError>(false),
    {
        let repo = match &self.repo {
            None => {
                return Ok(false);
            },
            Some(repo) => repo,
        };
        let cb = match callbacks() {
            Ok(cb) => cb,
            Err(e) => {
                return Err(classify(e));
            },
        };
        if let Err(e) = fetch_remote(repo, cb) {
            return Err(classify(e));
        }
        let local = match branch_tip(repo, false) {
            Ok(t) => t,
            Err(e) => {
                return Err(classify(e));
            },
        };
        let remote = match branch_tip(repo, true) {
            Ok(t) => t,
            Err(e) => {
                return Err(classify(e));
            },
        };
        match (local, remote) {
            (Some(a), Some(b)) => Ok(!bytes_equal(&a, &b)),
            (None, _) => Err(SyncError::Storage(String::from_str("local branch has no target"))),
            (_, None) => Err(SyncError::Storage(String::from_str("remote branch has no target"))),
        }
    }

    /// Pull the remote tracking branch, as the engine's merge
    /// algorithm prescribes: fetch; nothing to do when the tips agree
    /// or the remote is already contained; a pointer move when the
    /// local branch is strictly behind; otherwise a three-way merge,
    /// committed with both tips as parents, where a conflict is
    /// resolved by asking the host's prompt for one side.  Without a
    /// repository there is nothing to pull.
    pub fn pull(&mut self) -> (r: Result<(), SyncError>)
        ensures
            !old(self).configured() ==> r == Ok::<(), SyncError>(()),
            final(self).configured() == old(self).configured(),
    {
        let repo = match &self.repo {
            None => {
                return Ok(());
            },
            Some(repo) => repo,
        };
        let cb = match callbacks() {
            Ok(cb) => cb,
            Err(e) => {
                return Err(classify(e));
            },
        };
        if let Err(e) = fetch_remote(repo, cb) {
            return Err(classify(e));
        }
        let analysis = match analyze_remote(repo) {
            Ok(a) => a,
            Err(e) => {
                return Err(classify(e));
            },
        };
        match analysis {
            MergeAnalysis::UpToDate => Ok(()),
            MergeAnalysis::FastForward => match fast_forward(repo) {
                Ok(_) => Ok(()),
                Err(e) => Err(classify(e)),
            },
            MergeAnalysis::Merge => {
                let conflicted = match merge_would_conflict(repo) {
                    Ok(c) => c,
                    Err(e) => {
                        return Err(classify(e));
                    },
                };
                if let Err(e) = merge_fetch_head(repo) {
                    return Err(classify(e));
                }
                if conflicted {
                    let choice = self.prompt.resolve();
                    let resolved = match choice {
                        ConflictChoice::KeepLocal => keep_local_worktree(repo),
                        ConflictChoice::KeepRemote => keep_remote_worktree(repo),
                    };
                    if let Err(e) = resolved {
                        return Err(classify(e));
                    }
                    match commit_merge(repo) {
                        Ok(_) => Ok(()),
                        Err(e) => Err(classify(e)),
                    }
                } else {
                    match commit_merge(repo) {
                        Ok(_) => Ok(()),
                        Err(e) => Err(classify(e)),
                    }
                }
            },
        }
    }

    /// Stage and commit every local change under the engine's fixed
    /// authorship.  Without a repository there is nothing to commit.
    fn commit(&self) -> (r: Result<(), SyncError>)
        ensures
            !self.configured() ==> r == Ok::<(), SyncError>(()),
    {
        match &self.repo {
            None => Ok(()),
            Some(repo) => {
                if let Err(e) = stage_all(repo) {
                    return Err(classify(e));
                }
                match commit_staged(repo) {
                    Ok(_) => Ok(()),
                    Err(e) => Err(classify(e)),
                }
            },
        }
    }

    /// Push the local branch to its remote counterpart.  Without a
    /// repository there is nothing to push.
    fn push(&self) -> (r: Result<(), SyncError>)
        ensures
            !self.configured() ==> r == Ok::<(), SyncError>(()),
    {
        match &self.repo {
            None => Ok(()),
            Some(repo) => {
                let cb = match callbacks() {
                    Ok(cb) => cb,
                    Err(e) => {
                        return Err(classify(e));
                    },
                };
                match push_main(repo, cb) {
                    Ok(_) => Ok(()),
                    Err(e) => Err(classify(e)),
                }
            },
        }
    }

    /// One reconciliation pass, re-deriving the status from the
    /// working-directory state: `RepoNotConfigured` without a handle;
    /// with a dirty working directory, pull, commit and push, then
    /// `ChangesUploaded`; with a clean one, `NewChangesDetected` when
    /// the fetched remote tip differs from the local tip, else
    /// `UpToDate` — and in the clean cases nothing is changed.
    pub fn sync(&mut self) -> (r: Result<Status, SyncError>)
        ensures
            !old(self).configured() ==> r == Ok::<Status, SyncError>(Status::RepoNotConfigured),
            r == Ok::<Status, SyncError>(Status::RepoNotConfigured) ==> !old(self).configured(),
            final(self).configured() == old(self).configured(),
    {
        if !self.is_configured() {
            return Ok(Status::RepoNotConfigured);
        }
        if let Err(e) = self.set_upstream_branch() {
            return Err(e);
        }
        let dirty = {
            let repo = match &self.repo {
                None => {
                    return Ok(Status::RepoNotConfigured);
                },
                Some(repo) => repo,
            };
            match worktree_dirty(repo) {
                Ok(d) => d,
                Err(e) => {
                    return Err(classify(e));
                },
            }
        };
        let pending: bool;
        if dirty {
            if let Err(e) = self.pull() {
                return Err(e);
            }
            if let Err(e) = self.commit() {
                return Err(e);
            }
            if let Err(e) = self.push() {
                return Err(e);
            }
            pending = false;
        } else {
            pending = match self.updates_pending() {
                Ok(p) => p,
                Err(e) => {
                    return Err(e);
                },
            };
        }
        Ok(decide_status(dirty, pending))
    }
}

impl<P: ConflictPrompt> Synchronization for SyncManager<P> {
    fn sync(&mut self) -> Result<Status, SyncError> {
        SyncManager::sync(self)
    }

    fn handle(&mut self, message: SyncMessage) -> Result<(), SyncError> {
        match message {
            SyncMessage::Update => {
                if !self.is_configured() {
                    return Err(SyncError::NotConfigured);
                }
                self.pull()
            },
        }
    }
}

} // verus!
