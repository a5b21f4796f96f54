//! Scenario tests for the version-control model: one reconciliation
//! pass over a modelled repository.

use symmetry::sync::model::{Commit, RepoModel};
use symmetry::sync::{ConflictChoice, Status};

fn commit(id: u64, text: &str) -> Commit {
    Commit { id, text: String::from(text) }
}

#[test]
fn clean_sync_reports_up_to_date() {
    let mut m = RepoModel::new();
    let (status, prompted) = m.sync(ConflictChoice::KeepRemote, 1);
    assert_eq!(status, Status::UpToDate);
    assert!(!prompted);
    assert_eq!(m.local.len(), 0);
    assert_eq!(m.remote.len(), 0);
}

#[test]
fn sync_twice_is_idempotent() {
    let mut m = RepoModel::new();
    m.edit(String::from("wallpaper=/home/user/a.png"));
    let (first, _) = m.sync(ConflictChoice::KeepRemote, 1);
    assert_eq!(first, Status::ChangesUploaded);
    let commits = m.local.len();
    let (second, _) = m.sync(ConflictChoice::KeepRemote, 10);
    assert_eq!(second, Status::UpToDate);
    let (third, _) = m.sync(ConflictChoice::KeepRemote, 20);
    assert_eq!(third, Status::UpToDate);
    assert_eq!(m.local.len(), commits);
    assert_eq!(m.remote.len(), commits);
}

#[test]
fn local_edit_is_uploaded() {
    let mut m = RepoModel::new();
    m.edit(String::from("wallpaper=/home/user/new.png"));
    let (status, prompted) = m.sync(ConflictChoice::KeepRemote, 1);
    assert_eq!(status, Status::ChangesUploaded);
    assert!(!prompted);
    assert_eq!(m.local.len(), 1);
    assert_eq!(m.remote.len(), 1);
    assert_eq!(m.remote[0].text, "wallpaper=/home/user/new.png");
    assert!(m.worktree.is_none());
}

#[test]
fn remote_ahead_is_detected_then_applied() {
    let mut m = RepoModel::new();
    m.grow_remote(1, String::from("wallpaper=/home/user/b.png"));
    let (status, prompted) = m.sync(ConflictChoice::KeepRemote, 2);
    assert_eq!(status, Status::NewChangesDetected);
    assert!(!prompted);
    assert_eq!(m.local.len(), 0);
    let prompted = m.pull(ConflictChoice::KeepRemote, 2);
    assert!(!prompted);
    assert_eq!(m.local.len(), 1);
    assert_eq!(m.local[0].id, m.remote[0].id);
    assert_eq!(m.local[0].text, "wallpaper=/home/user/b.png");
}

#[test]
fn fast_forward_creates_no_merge_commit() {
    let mut m = RepoModel {
        local: vec![commit(1, "base")],
        remote: vec![commit(1, "base"), commit(2, "newer")],
        worktree: None,
    };
    let prompted = m.pull(ConflictChoice::KeepLocal, 10);
    assert!(!prompted);
    assert_eq!(m.local.len(), 2);
    assert_eq!(m.local[1].id, 2);
    assert_eq!(m.local[1].text, "newer");
}

#[test]
fn one_sided_change_merges_without_prompt() {
    let mut m = RepoModel {
        local: vec![commit(1, "base"), commit(3, "base")],
        remote: vec![commit(1, "base"), commit(2, "remote change")],
        worktree: None,
    };
    let prompted = m.pull(ConflictChoice::KeepLocal, 10);
    assert!(!prompted);
    assert_eq!(m.local.len(), 3);
    assert_eq!(m.local[2].id, 10);
    assert_eq!(m.local[2].text, "remote change");
}

#[test]
fn conflict_prompts_once_and_keeps_remote() {
    let mut m = RepoModel {
        local: vec![commit(1, "base"), commit(3, "local change")],
        remote: vec![commit(1, "base"), commit(2, "remote change")],
        worktree: None,
    };
    let prompted = m.pull(ConflictChoice::KeepRemote, 10);
    assert!(prompted);
    assert_eq!(m.local.len(), 3);
    assert_eq!(m.local[2].text, "remote change");
}

#[test]
fn conflict_prompts_once_and_keeps_local() {
    let mut m = RepoModel {
        local: vec![commit(1, "base"), commit(3, "local change")],
        remote: vec![commit(1, "base"), commit(2, "remote change")],
        worktree: None,
    };
    let prompted = m.pull(ConflictChoice::KeepLocal, 10);
    assert!(prompted);
    assert_eq!(m.local.len(), 3);
    assert_eq!(m.local[2].text, "local change");
}

#[test]
fn equal_tips_pull_is_a_no_op() {
    let mut m = RepoModel {
        local: vec![commit(1, "base")],
        remote: vec![commit(1, "base")],
        worktree: None,
    };
    let prompted = m.pull(ConflictChoice::KeepRemote, 10);
    assert!(!prompted);
    assert_eq!(m.local.len(), 1);
    assert_eq!(m.remote.len(), 1);
}
