//! A mathematical model of the version-control strategy.
//!
//! The working directory holds a single configuration file, so a
//! repository is modelled as a linear history of commits of that file,
//! one history for the local branch and one for the remote tracking
//! branch, plus the uncommitted content of the working tree, if any.
//! The decision sequence of a reconciliation pass — dirty or clean,
//! ahead or behind, fast-forward or three-way merge, conflict or not —
//! is executable logic on this model, and the engine's correctness
//! properties are proved about it.

use vstd::prelude::*;

use crate::sync::{ConflictChoice, Status};

verus! {

/// One commit of the configuration file: an identifier and the file
/// content it recorded.
#[derive(Debug)]
pub struct Commit {
    /// The commit identifier, unique within a model.
    pub id: u64,
    /// The configuration file content at this commit.
    pub text: String,
}

impl Clone for Commit {
    fn clone(&self) -> (r: Self)
        ensures
            r == *self,
    {
        Commit { id: self.id, text: self.text.clone() }
    }
}

/// The mathematical content of a commit.
#[verifier::ext_equal]
pub struct CommitView {
    /// The commit identifier.
    pub id: int,
    /// The recorded file content.
    pub text: Seq<char>,
}

impl View for Commit {
    type V = CommitView;

    open spec fn view(&self) -> CommitView {
        CommitView { id: self.id as int, text: self.text@ }
    }
}

/// The mathematical content of a history: its commits in order.
pub open spec fn hview(h: Seq<Commit>) -> Seq<CommitView> {
    h.map_values(|c: Commit| c@)
}

/// What a merge analysis finds when comparing the two branches.
#[derive(Clone, Copy, Debug, PartialEq, Eq, Structural)]
pub enum MergeAnalysis {
    /// The remote history is already contained in the local history.
    UpToDate,
    /// The local history is a proper prefix of the remote history, so
    /// the local branch pointer can simply be moved forward.
    FastForward,
    /// The histories diverged; a three-way merge is required.
    Merge,
}

/// The modelled state of the repository: the local branch history, the
/// remote tracking branch history as last fetched, and the uncommitted
/// working-tree content, if any.
#[derive(Debug)]
pub struct RepoModel {
    /// The local branch, oldest commit first.
    pub local: Vec<Commit>,
    /// The remote tracking branch, oldest commit first.
    pub remote: Vec<Commit>,
    /// The uncommitted configuration file content, or `None` when the
    /// working tree is clean.
    pub worktree: Option<String>,
}

/// The mathematical content of a modelled repository.
#[verifier::ext_equal]
pub struct ModelView {
    /// The local branch, oldest commit first.
    pub local: Seq<CommitView>,
    /// The remote tracking branch, oldest commit first.
    pub remote: Seq<CommitView>,
    /// The uncommitted file content, if any.
    pub worktree: Option<Seq<char>>,
}

impl View for RepoModel {
    type V = ModelView;

    open spec fn view(&self) -> ModelView {
        ModelView {
            local: hview(self.local@),
            remote: hview(self.remote@),
            worktree: match self.worktree {
                Option::Some(t) => Option::Some(t@),
                Option::None => Option::None,
            },
        }
    }
}

/// Whether history `a` is a prefix of history `b`, by identifiers.
pub open spec fn is_prefix(a: Seq<CommitView>, b: Seq<CommitView>) -> bool {
    a.len() <= b.len() && forall|i: int| 0 <= i < a.len() ==> a[i].id == b[i].id
}

/// Whether the two branch tips point at the same commit.
pub open spec fn tips_agree(a: Seq<CommitView>, b: Seq<CommitView>) -> bool {
    if a.len() == 0 {
        b.len() == 0
    } else {
        b.len() > 0 && a.last().id == b.last().id
    }
}

/// Identifiers are unique within one history.
pub open spec fn ids_unique(h: Seq<CommitView>) -> bool {
    forall|i: int, j: int| 0 <= i < j < h.len() ==> h[i].id != h[j].id
}

/// Shared identifiers record the same content across two histories.
pub open spec fn histories_coherent(a: Seq<CommitView>, b: Seq<CommitView>) -> bool {
    forall|i: int, j: int|
        0 <= i < a.len() && 0 <= j < b.len() && a[i].id == b[j].id ==> a[i].text == b[j].text
}

/// What a merge analysis of the two histories must find.
pub open spec fn spec_analysis(local: Seq<CommitView>, remote: Seq<CommitView>) -> MergeAnalysis {
    if is_prefix(remote, local) {
        MergeAnalysis::UpToDate
    } else if is_prefix(local, remote) {
        MergeAnalysis::FastForward
    } else {
        MergeAnalysis::Merge
    }
}

/// The number of commits the two histories share from the root: the
/// length of their longest common prefix, by identifiers.
pub open spec fn common_len(a: Seq<CommitView>, b: Seq<CommitView>) -> nat
    decreases a.len(),
{
    if a.len() == 0 || b.len() == 0 {
        0
    } else if a[0].id == b[0].id {
        1 + common_len(a.drop_first(), b.drop_first())
    } else {
        0
    }
}

/// The file content at the common ancestor of the two tips: the text
/// of the last shared commit, or the empty file when the histories
/// share nothing.
pub open spec fn base_text(a: Seq<CommitView>, b: Seq<CommitView>) -> Seq<char> {
    if common_len(a, b) == 0 {
        Seq::<char>::empty()
    } else {
        a[common_len(a, b) - 1].text
    }
}

/// The three-way merge of one file: if only one side changed the file
/// since the common ancestor, that side wins cleanly; if both sides
/// made the same change, it wins cleanly; if the sides made different
/// changes, the merge conflicts and no content is produced.
pub open spec fn spec_three_way(
    base: Seq<char>,
    ours: Seq<char>,
    theirs: Seq<char>,
) -> Option<Seq<char>> {
    if ours == theirs {
        Option::Some(ours)
    } else if ours == base {
        Option::Some(theirs)
    } else if theirs == base {
        Option::Some(ours)
    } else {
        Option::None
    }
}

/// What one pull leaves behind: the new state and how many times the
/// host was asked to resolve a conflict.
#[verifier::ext_equal]
pub struct PullOutcome {
    /// The state after the pull.
    pub state: ModelView,
    /// How many conflict prompts the pull raised.
    pub prompts: nat,
}

/// The pull-and-merge step.  Fetching has already happened: `m.remote`
/// is the remote branch as fetched.  When the histories diverged, a
/// merge commit with the fresh identifier `id` is created; a
/// conflicting merge is resolved by `choice` and counts one prompt.
pub open spec fn spec_pull(m: ModelView, choice: ConflictChoice, id: int) -> PullOutcome {
    let analysis = spec_analysis(m.local, m.remote);
    if analysis == MergeAnalysis::UpToDate {
        PullOutcome { state: m, prompts: 0 }
    } else if analysis == MergeAnalysis::FastForward {
        PullOutcome {
            state: ModelView { local: m.remote, remote: m.remote, worktree: m.worktree },
            prompts: 0,
        }
    } else {
        let base = base_text(m.local, m.remote);
        let ours = m.local.last().text;
        let theirs = m.remote.last().text;
        match spec_three_way(base, ours, theirs) {
            Option::Some(t) => PullOutcome {
                state: ModelView {
                    local: m.local.push(CommitView { id, text: t }),
                    remote: m.remote,
                    worktree: m.worktree,
                },
                prompts: 0,
            },
            Option::None => {
                let t = if choice == ConflictChoice::KeepLocal {
                    ours
                } else {
                    theirs
                };
                PullOutcome {
                    state: ModelView {
                        local: m.local.push(CommitView { id, text: t }),
                        remote: m.remote,
                        worktree: m.worktree,
                    },
                    prompts: 1,
                }
            },
        }
    }
}

/// What one reconciliation pass leaves behind.
#[verifier::ext_equal]
pub struct SyncOutcome {
    /// The state after the pass.
    pub state: ModelView,
    /// The status the pass reports.
    pub status: Status,
    /// How many conflict prompts the pass raised.
    pub prompts: nat,
}

/// One reconciliation pass.  A dirty working tree is pulled over,
/// committed with the fresh identifier `id + 1` (the pull may use
/// `id` for a merge commit) and pushed; a clean tree only compares
/// the two tips and never changes anything.
pub open spec fn spec_sync(m: ModelView, choice: ConflictChoice, id: int) -> SyncOutcome {
    match m.worktree {
        Option::Some(text) => {
            let pulled = spec_pull(m, choice, id).state;
            let committed = pulled.local.push(CommitView { id: id + 1, text });
            SyncOutcome {
                state: ModelView { local: committed, remote: committed, worktree: Option::None },
                status: Status::ChangesUploaded,
                prompts: spec_pull(m, choice, id).prompts,
            }
        },
        Option::None => {
            if tips_agree(m.local, m.remote) {
                SyncOutcome { state: m, status: Status::UpToDate, prompts: 0 }
            } else {
                SyncOutcome { state: m, status: Status::NewChangesDetected, prompts: 0 }
            }
        },
    }
}

impl RepoModel {
    /// A model is well formed when identifiers are unique in each
    /// history and shared identifiers record the same content.
    pub open spec fn well_formed(&self) -> bool {
        &&& ids_unique(self@.local)
        &&& ids_unique(self@.remote)
        &&& histories_coherent(self@.local, self@.remote)
    }

    /// Every commit identifier in the model is below `bound`, so fresh
    /// identifiers from `bound` upward cannot collide.
    pub open spec fn ids_below(&self, bound: int) -> bool {
        &&& forall|i: int| 0 <= i < self@.local.len() ==> self@.local[i].id < bound
        &&& forall|i: int| 0 <= i < self@.remote.len() ==> self@.remote[i].id < bound
    }

    /// An empty repository: no commits anywhere, a clean working tree.
    pub fn new() -> (r: Self)
        ensures
            r@.local.len() == 0,
            r@.remote.len() == 0,
            r@.worktree is None,
            r.well_formed(),
            r.ids_below(0),
    {
        RepoModel { local: Vec::new(), remote: Vec::new(), worktree: None }
    }

    /// Record an uncommitted local edit of the configuration file.
    pub fn edit(&mut self, text: String)
        ensures
            final(self)@ == (ModelView { worktree: Option::Some(text@), ..old(self)@ }),
            old(self).well_formed() ==> final(self).well_formed(),
            forall|b: int| old(self).ids_below(b) ==> final(self).ids_below(b),
    {
        self.worktree = Some(text);
    }

    /// Let the remote branch grow by one commit, as another device's
    /// push would make it.
    pub fn grow_remote(&mut self, id: u64, text: String)
        requires
            old(self).ids_below(id as int),
        ensures
            final(self)@ == (ModelView {
                remote: old(self)@.remote.push(CommitView { id: id as int, text: text@ }),
                ..old(self)@
            }),
            old(self).well_formed() ==> final(self).well_formed(),
            forall|b: int| old(self).ids_below(b) && id < b ==> final(self).ids_below(b),
    {
        self.remote.push(Commit { id, text });
        proof {
            assert(final(self)@.remote =~= old(self)@.remote.push(
                CommitView { id: id as int, text: text@ },
            ));
            assert(final(self)@ =~= (ModelView {
                remote: old(self)@.remote.push(CommitView { id: id as int, text: text@ }),
                ..old(self)@
            }));
        }
    }
}

/// Copy a history commit for commit.
fn copy_history(v: &Vec<Commit>) -> (r: Vec<Commit>)
    ensures
        r@ == v@,
{
    let mut r: Vec<Commit> = Vec::new();
    let mut i: usize = 0;
    while i < v.len()
        invariant
            0 <= i <= v.len(),
            r@ =~= v@.subrange(0, i as int),
        decreases v.len() - i,
    {
        r.push(v[i].clone());
        i += 1;
    }
    proof {
        assert(v@.subrange(0, v@.len() as int) =~= v@);
    }
    r
}

/// A run of matching identifiers that stops is the common prefix.
proof fn lemma_common_len_at(a: Seq<CommitView>, b: Seq<CommitView>, i: int)
    requires
        0 <= i <= a.len(),
        i <= b.len(),
        forall|j: int| 0 <= j < i ==> a[j].id == b[j].id,
        i == a.len() || i == b.len() || a[i].id != b[i].id,
    ensures
        common_len(a, b) == i,
    decreases i,
{
    if i == 0 {
    } else {
        assert(a[0].id == b[0].id);
        assert forall|j: int| 0 <= j < i - 1 implies a.drop_first()[j].id == b.drop_first()[j].id by {
            assert(a.drop_first()[j] == a[j + 1]);
            assert(b.drop_first()[j] == b[j + 1]);
        }
        if i < a.len() && i < b.len() {
            assert(a.drop_first()[i - 1].id != b.drop_first()[i - 1].id) by {
                assert(a.drop_first()[i - 1] == a[i]);
                assert(b.drop_first()[i - 1] == b[i]);
            }
        }
        lemma_common_len_at(a.drop_first(), b.drop_first(), i - 1);
    }
}

/// Count the commits shared from the root by the two histories.
fn common_base_len(a: &Vec<Commit>, b: &Vec<Commit>) -> (r: usize)
    ensures
        r == common_len(hview(a@), hview(b@)),
        r <= a.len() && r <= b.len(),
{
    let mut i: usize = 0;
    loop
        invariant
            0 <= i <= a.len(),
            i <= b.len(),
            forall|j: int| 0 <= j < i ==> hview(a@)[j].id == hview(b@)[j].id,
        decreases a.len() - i,
    {
        if i == a.len() || i == b.len() || a[i].id != b[i].id {
            proof {
                lemma_common_len_at(hview(a@), hview(b@), i as int);
            }
            return i;
        }
        assert(hview(a@)[i as int].id == hview(b@)[i as int].id);
        i += 1;
    }
}

/// Merge one file three ways, as [`spec_three_way`] describes.
fn three_way(base: &String, ours: &String, theirs: &String) -> (r: Option<String>)
    ensures
        match r {
            Option::Some(t) => spec_three_way(base@, ours@, theirs@) == Option::Some(t@),
            Option::None => spec_three_way(base@, ours@, theirs@) is None,
        },
{
    if *ours == *theirs {
        Some(ours.clone())
    } else if *ours == *base {
        Some(theirs.clone())
    } else if *theirs == *base {
        Some(ours.clone())
    } else {
        None
    }
}

/// Whether the two branch tips point at the same commit.
fn tips_equal(a: &Vec<Commit>, b: &Vec<Commit>) -> (r: bool)
    ensures
        r == tips_agree(hview(a@), hview(b@)),
{
    if a.len() == 0 {
        b.len() == 0
    } else {
        b.len() > 0 && a[a.len() - 1].id == b[b.len() - 1].id
    }
}

impl RepoModel {
    /// Pull the fetched remote branch into the local branch: nothing
    /// to do when the remote is already contained, a pointer move when
    /// the local branch is strictly behind, and otherwise a three-way
    /// merge committed under the fresh identifier `next_id`.  The
    /// returned flag says whether the host was asked to resolve a
    /// conflict; `choice` is consumed only in that case.
    pub fn pull(&mut self, choice: ConflictChoice, next_id: u64) -> (prompted: bool)
        requires
            old(self).well_formed(),
            old(self).ids_below(next_id as int),
        ensures
            final(self)@ == spec_pull(old(self)@, choice, next_id as int).state,
            prompted <==> spec_pull(old(self)@, choice, next_id as int).prompts == 1,
            final(self).well_formed(),
            final(self).ids_below(next_id as int + 1),
            final(self)@.worktree == old(self)@.worktree,
    {
        let ghost m = self@;
        let analysis = merge_analysis(&self.local, &self.remote);
        match analysis {
            MergeAnalysis::UpToDate => {
                assert(self@ =~= spec_pull(m, choice, next_id as int).state);
                false
            },
            MergeAnalysis::FastForward => {
                self.local = copy_history(&self.remote);
                assert(self@ =~= spec_pull(m, choice, next_id as int).state);
                false
            },
            MergeAnalysis::Merge => {
                proof {
                    if self.local.len() == 0 {
                        assert(is_prefix(hview(self.local@), hview(self.remote@)));
                    }
                    if self.remote.len() == 0 {
                        assert(is_prefix(hview(self.remote@), hview(self.local@)));
                    }
                }
                let k = common_base_len(&self.local, &self.remote);
                let base = if k == 0 {
                    String::new()
                } else {
                    self.local[k - 1].text.clone()
                };
                assert(base@ == base_text(m.local, m.remote));
                let ours = self.local[self.local.len() - 1].text.clone();
                let theirs = self.remote[self.remote.len() - 1].text.clone();
                assert(ours@ == m.local.last().text);
                assert(theirs@ == m.remote.last().text);
                let merged: (String, bool) = match three_way(&base, &ours, &theirs) {
                    Some(t) => (t, false),
                    None => {
                        let t = if matches!(choice, ConflictChoice::KeepLocal) {
                            ours
                        } else {
                            theirs
                        };
                        (t, true)
                    },
                };
                let (text, prompted) = merged;
                self.local.push(Commit { id: next_id, text });
                proof {
                    assert(hview(self.local@) =~= m.local.push(
                        CommitView { id: next_id as int, text: text@ },
                    ));
                    assert(self@ =~= spec_pull(m, choice, next_id as int).state);
                    assert forall|i: int, j: int|
                        0 <= i < j < self@.local.len() implies self@.local[i].id != self@.local[j].id by {
                        if j == self@.local.len() - 1 {
                            assert(self@.local[i].id == m.local[i].id);
                        }
                    }
                    assert forall|i: int, j: int|
                        0 <= i < self@.local.len() && 0 <= j < self@.remote.len()
                            && self@.local[i].id == self@.remote[j].id implies self@.local[i].text
                        == self@.remote[j].text by {
                        if i < self@.local.len() - 1 {
                            assert(self@.local[i] == m.local[i]);
                        }
                    }
                }
                prompted
            },
        }
    }

    /// One reconciliation pass over the model, as the engine's
    /// decision sequence prescribes: a dirty working tree is pulled
    /// over, committed and pushed; a clean tree only compares the two
    /// tips.  Returns the status of the pass and whether the host was
    /// asked to resolve a conflict.
    pub fn sync(&mut self, choice: ConflictChoice, next_id: u64) -> (r: (Status, bool))
        requires
            old(self).well_formed(),
            old(self).ids_below(next_id as int),
            next_id < u64::MAX,
        ensures
            final(self)@ == spec_sync(old(self)@, choice, next_id as int).state,
            r.0 == spec_sync(old(self)@, choice, next_id as int).status,
            r.1 <==> spec_sync(old(self)@, choice, next_id as int).prompts == 1,
            final(self).well_formed(),
            final(self).ids_below(next_id as int + 2),
    {
        let ghost m = self@;
        let dirty = match &self.worktree {
            Some(_) => true,
            None => false,
        };
        if dirty {
            let prompted = self.pull(choice, next_id);
            let text = match &self.worktree {
                Some(t) => t.clone(),
                None => String::new(),
            };
            self.worktree = None;
            self.local.push(Commit { id: next_id + 1, text });
            self.remote = copy_history(&self.local);
            proof {
                let pulled = spec_pull(m, choice, next_id as int).state;
                assert(hview(self.local@) =~= pulled.local.push(
                    CommitView { id: next_id as int + 1, text: m.worktree.unwrap() },
                ));
                assert(self@ =~= spec_sync(m, choice, next_id as int).state);
                assert forall|i: int, j: int|
                    0 <= i < j < self@.local.len() implies self@.local[i].id != self@.local[j].id by {
                    if j == self@.local.len() - 1 {
                        assert(self@.local[i] == pulled.local[i]);
                    }
                }
                assert forall|i: int, j: int|
                    0 <= i < self@.local.len() && 0 <= j < self@.remote.len()
                        && self@.local[i].id == self@.remote[j].id implies self@.local[i].text
                    == self@.remote[j].text by {
                    assert(self@.remote[j] == self@.local[j]);
                }
            }
            (Status::ChangesUploaded, prompted)
        } else {
            let equal = tips_equal(&self.local, &self.remote);
            if equal {
                (Status::UpToDate, false)
            } else {
                (Status::NewChangesDetected, false)
            }
        }
    }
}

/// Idempotence of the pass: with a clean working tree and agreeing
/// tips, a pass reports `UpToDate` and changes nothing, so a second
/// pass reports `UpToDate` again and still changes nothing.
pub proof fn lemma_sync_idempotent(
    m: ModelView,
    c1: ConflictChoice,
    c2: ConflictChoice,
    id1: int,
    id2: int,
)
    requires
        m.worktree is None,
        tips_agree(m.local, m.remote),
    ensures
        spec_sync(m, c1, id1) == (SyncOutcome { state: m, status: Status::UpToDate, prompts: 0 }),
        spec_sync(spec_sync(m, c1, id1).state, c2, id2) == (SyncOutcome {
            state: m,
            status: Status::UpToDate,
            prompts: 0,
        }),
{
}

/// Fast-forward correctness: when the local tip is a strict ancestor
/// of the remote tip, a pull moves the local branch exactly to the
/// remote branch — same tip, same length, no merge commit — and asks
/// the host nothing.
pub proof fn lemma_fast_forward(m: ModelView, c: ConflictChoice, id: int)
    requires
        is_prefix(m.local, m.remote),
        !is_prefix(m.remote, m.local),
    ensures
        spec_pull(m, c, id) == (PullOutcome {
            state: ModelView { local: m.remote, remote: m.remote, worktree: m.worktree },
            prompts: 0,
        }),
        spec_pull(m, c, id).state.local == m.remote,
{
}

/// The conflict path: when the histories diverged and both sides
/// changed the file since their common ancestor — differently — the
/// pull asks the host exactly once, and the resulting merge commit
/// carries exactly the chosen side's content.
pub proof fn lemma_conflict_resolution(m: ModelView, c: ConflictChoice, id: int)
    requires
        spec_analysis(m.local, m.remote) == MergeAnalysis::Merge,
        m.local.len() > 0 && m.remote.len() > 0,
        m.local.last().text != base_text(m.local, m.remote),
        m.remote.last().text != base_text(m.local, m.remote),
        m.local.last().text != m.remote.last().text,
    ensures
        spec_pull(m, c, id).prompts == 1,
        spec_pull(m, c, id).state.local.len() == m.local.len() + 1,
        spec_pull(m, c, id).state.local.last().text == if c == ConflictChoice::KeepLocal {
            m.local.last().text
        } else {
            m.remote.last().text
        },
{
}

/// Decide whether `a` is a prefix of `b`, comparing identifiers.
fn prefix_of(a: &Vec<Commit>, b: &Vec<Commit>) -> (r: bool)
    ensures
        r == is_prefix(hview(a@), hview(b@)),
{
    if a.len() > b.len() {
        assert(!is_prefix(hview(a@), hview(b@)));
        return false;
    }
    let mut i: usize = 0;
    while i < a.len()
        invariant
            0 <= i <= a.len(),
            a.len() <= b.len(),
            forall|j: int| 0 <= j < i ==> hview(a@)[j].id == hview(b@)[j].id,
        decreases a.len() - i,
    {
        if a[i].id != b[i].id {
            assert(hview(a@)[i as int].id != hview(b@)[i as int].id);
            assert(!is_prefix(hview(a@), hview(b@)));
            return false;
        }
        i += 1;
    }
    true
}

/// Compare the two histories as a fetch-and-analyse step would.
pub fn merge_analysis(local: &Vec<Commit>, remote: &Vec<Commit>) -> (r: MergeAnalysis)
    ensures
        r == spec_analysis(hview(local@), hview(remote@)),
{
    if prefix_of(remote, local) {
        MergeAnalysis::UpToDate
    } else if prefix_of(local, remote) {
        MergeAnalysis::FastForward
    } else {
        MergeAnalysis::Merge
    }
}

} // verus!
