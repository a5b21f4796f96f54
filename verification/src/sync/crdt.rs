//! The conflict-free-replication strategy.
//!
//! Each setting is a last-writer-wins register and every write is also
//! appended to an ordered operation log, so concurrent edits never
//! conflict.  The register and the log come from the `crdts` library
//! behind trusted wrappers; the merge rule around them is the verified
//! order of [`crate::sync::register`].  The network transport that
//! carries writes between peers is the host's business: it feeds
//! received writes in through [`CRDTSync::receive`], and a later
//! `handle(Update)` applies them all under the merge rule.

use vstd::prelude::*;

use crdts::CmRDT;

use crate::sync::config::{CrdtConfig, KEY_LEN};
use crate::sync::register::{
    apply_all, copy_bytes, entry_views, lemma_apply_all_push, merge_write, Entry, EntryView,
};
use crate::sync::{Status, SyncError, SyncMessage, Synchronization};

verus! {

/// The last-writer-wins register of the `crdts` library.  Its fields
/// are public there, so they stay visible here.
#[verifier::external_type_specification]
#[verifier::reject_recursive_types(V)]
#[verifier::reject_recursive_types(M)]
pub struct ExLWWReg<V, M>(crdts::LWWReg<V, M>);

/// The ordered operation log of the `crdts` library, kept opaque.
#[verifier::external_type_specification]
#[verifier::external_body]
#[verifier::reject_recursive_types(T)]
#[verifier::reject_recursive_types(A)]
pub struct ExList<T, A: Ord>(crdts::List<T, A>);

/// The values held by an operation log, in log order.
pub uninterp spec fn log_entries(l: crdts::List<String, String>) -> Seq<Seq<char>>;

/// Relies on crdts::List::new: the empty log.
#[verifier::external_body]
fn log_new() -> (r: crdts::List<String, String>)
    ensures
        log_entries(r) == Seq::<Seq<char>>::empty(),
{
    crdts::List::new()
}

/// Relies on crdts::List::append and crdts::CmRDT::apply: generating
/// an insertion at the end of the log under the given actor and
/// applying it appends the value.
#[verifier::external_body]
fn log_append(l: &mut crdts::List<String, String>, value: String, actor: String)
    ensures
        log_entries(*final(l)) == log_entries(*old(l)).push(value@),
{
    let op = l.append(value, actor);
    l.apply(op);
}

/// Relies on crdts::List::len: the number of entries in the log.
#[verifier::external_body]
fn log_len(l: &crdts::List<String, String>) -> (r: usize)
    ensures
        r == log_entries(*l).len(),
{
    l.len()
}

/// Relies on crdts::List::iter: the logged values in log order.
#[verifier::external_body]
fn log_read(l: &crdts::List<String, String>) -> (r: Vec<String>)
    ensures
        r@.map_values(|s: String| s@) == log_entries(*l),
{
    l.iter().cloned().collect()
}

/// Relies on the public fields of crdts::LWWReg: a register holding
/// the given value witnessed by the given marker.
#[verifier::external_body]
fn reg_new(val: String, marker: i32) -> (r: crdts::LWWReg<String, i32>)
    ensures
        r.val == val,
        r.marker == marker,
{
    crdts::LWWReg { val, marker }
}

/// Relies on crdts::LWWReg::update: the write is applied exactly when
/// its marker is strictly greater than the held marker.
#[verifier::external_body]
fn reg_update(reg: &mut crdts::LWWReg<String, i32>, val: String, marker: i32)
    ensures
        marker > old(reg).marker ==> final(reg).val == val && final(reg).marker == marker,
        marker <= old(reg).marker ==> final(reg).val == old(reg).val && final(reg).marker == old(
            reg,
        ).marker,
{
    reg.update(val, marker);
}

/// Relies on the public fields of crdts::LWWReg: overwrite both
/// fields.  The merge rule decides beforehand whether the overwrite
/// is warranted; this only performs it.
#[verifier::external_body]
fn reg_set(reg: &mut crdts::LWWReg<String, i32>, val: String, marker: i32)
    ensures
        final(reg).val == val,
        final(reg).marker == marker,
{
    reg.val = val;
    reg.marker = marker;
}

/// Relies on the public fields of crdts::LWWReg: read the held value.
#[verifier::external_body]
fn reg_value(reg: &crdts::LWWReg<String, i32>) -> (r: String)
    ensures
        r == reg.val,
{
    reg.val.clone()
}

/// Relies on the public fields of crdts::LWWReg: read the held marker.
#[verifier::external_body]
fn reg_marker(reg: &crdts::LWWReg<String, i32>) -> (r: i32)
    ensures
        r == reg.marker,
{
    reg.marker
}

/// Relies on String::from_utf8_lossy: a textual actor label for a
/// replica identity, used to tag this replica's log insertions.
#[verifier::external_body]
fn identity_label(key: &Vec<u8>) -> String {
    String::from_utf8_lossy(key).into_owned()
}

/// The provider of the conflict-free-replication strategy: one
/// replica's key material, peers, operation log, register, and the
/// writes received from peers but not yet applied.
pub struct CRDTSync {
    /// Key material and toggle for this replica.
    pub config: CrdtConfig,
    /// The network addresses of known peers, as plain text.
    pub peers: Vec<String>,
    /// The append-only log of every local write, for replay and audit;
    /// never pruned.
    pub ops: crdts::List<String, String>,
    /// The last-writer-wins register holding the current setting.
    pub curr_setting: crdts::LWWReg<String, i32>,
    /// The identity of the replica that wrote the register's current
    /// value.
    pub current_writer: Vec<u8>,
    /// Writes received from peers and not yet applied.
    pub inbox: Vec<Entry>,
}

impl CRDTSync {
    /// The mathematical content of the register: value, marker, and
    /// the identity of its writer.
    pub open spec fn reg_entry(&self) -> EntryView {
        EntryView {
            value: self.curr_setting.val@,
            marker: self.curr_setting.marker as int,
            writer: self.current_writer@,
        }
    }

    /// The marker counts exactly the local writes logged so far.
    /// Every local update preserves this; only a remote overwrite can
    /// break it.
    pub open spec fn locally_consistent(&self) -> bool {
        self.curr_setting.marker as int == log_entries(self.ops).len()
    }

    /// A fresh replica: no identity, no peers, an empty log, an empty
    /// register at marker zero, and nothing pending.
    pub fn new() -> (r: Self)
        ensures
            r.config.is_default(),
            r.config.well_formed(),
            r.peers@.len() == 0,
            log_entries(r.ops) == Seq::<Seq<char>>::empty(),
            r.curr_setting.val@ == Seq::<char>::empty(),
            r.curr_setting.marker == 0,
            r.current_writer@ == Seq::<u8>::empty(),
            r.inbox@.len() == 0,
            r.locally_consistent(),
    {
        CRDTSync {
            config: CrdtConfig::new(),
            peers: Vec::new(),
            ops: log_new(),
            curr_setting: reg_new(String::new(), 0),
            current_writer: Vec::new(),
            inbox: Vec::new(),
        }
    }

    /// Install the replica keypair, once.  The host generates it on
    /// first use and persists it locally; once enabled it is never
    /// regenerated.
    pub fn set_identity(&mut self, public_key: Vec<u8>, secret_key: Vec<u8>)
        requires
            old(self).config.public_key@.len() == 0,
            public_key@.len() == KEY_LEN,
            secret_key@.len() == KEY_LEN,
        ensures
            final(self).config.public_key == public_key,
            final(self).config.secret_key == secret_key,
            final(self).config.enabled,
            final(self).config.well_formed(),
            final(self).peers == old(self).peers,
            final(self).ops == old(self).ops,
            final(self).curr_setting == old(self).curr_setting,
            final(self).current_writer == old(self).current_writer,
            final(self).inbox == old(self).inbox,
    {
        self.config = CrdtConfig { public_key, secret_key, enabled: true };
    }

    /// Remember one peer address.
    pub fn add_peer(&mut self, address: String)
        ensures
            final(self).peers@ == old(self).peers@.push(address),
            final(self).config == old(self).config,
            final(self).ops == old(self).ops,
            final(self).curr_setting == old(self).curr_setting,
            final(self).current_writer == old(self).current_writer,
            final(self).inbox == old(self).inbox,
    {
        self.peers.push(address);
    }

    /// A local write: step the marker, log the value, and apply it to
    /// the register unconditionally — a local write always wins
    /// locally and is the new causal frontier, written by this
    /// replica.
    pub fn update(&mut self, value: String)
        requires
            old(self).curr_setting.marker < i32::MAX,
        ensures
            final(self).curr_setting.val == value,
            final(self).curr_setting.marker == old(self).curr_setting.marker + 1,
            log_entries(final(self).ops) == log_entries(old(self).ops).push(value@),
            final(self).current_writer@ == old(self).config.public_key@,
            final(self).config == old(self).config,
            final(self).peers == old(self).peers,
            final(self).inbox == old(self).inbox,
            old(self).locally_consistent() ==> final(self).locally_consistent(),
    {
        let marker = reg_marker(&self.curr_setting);
        let actor = identity_label(&self.config.public_key);
        log_append(&mut self.ops, value.clone(), actor);
        reg_update(&mut self.curr_setting, value, marker + 1);
        self.current_writer = copy_bytes(&self.config.public_key);
    }

    /// Store one write received from a peer; it is applied by the
    /// next `handle(Update)`.
    pub fn receive(&mut self, update: Entry)
        ensures
            final(self).inbox@ == old(self).inbox@.push(update),
            final(self).config == old(self).config,
            final(self).peers == old(self).peers,
            final(self).ops == old(self).ops,
            final(self).curr_setting == old(self).curr_setting,
            final(self).current_writer == old(self).current_writer,
    {
        self.inbox.push(update);
    }

    /// How many received writes wait to be applied.
    pub fn pending(&self) -> (r: usize)
        ensures
            r == self.inbox@.len(),
    {
        self.inbox.len()
    }

    /// The register's current value.
    pub fn value(&self) -> (r: String)
        ensures
            r == self.curr_setting.val,
    {
        reg_value(&self.curr_setting)
    }

    /// The register's current marker.
    pub fn marker(&self) -> (r: i32)
        ensures
            r == self.curr_setting.marker,
    {
        reg_marker(&self.curr_setting)
    }

    /// The register's current write, as it would be sent to a peer.
    pub fn current_entry(&self) -> (r: Entry)
        ensures
            r@ == self.reg_entry(),
    {
        Entry {
            value: reg_value(&self.curr_setting),
            marker: reg_marker(&self.curr_setting),
            writer: copy_bytes(&self.current_writer),
        }
    }

    /// The logged values, in log order.
    pub fn ops_values(&self) -> (r: Vec<String>)
        ensures
            r@.map_values(|s: String| s@) == log_entries(self.ops),
    {
        log_read(&self.ops)
    }

    /// One reconciliation pass.  The host's transport has already
    /// exchanged writes; with nothing pending there is nothing to do,
    /// and pending writes are reported for the host to apply through
    /// `handle(SyncMessage::Update)`.
    pub fn sync(&self) -> (r: Result<Status, SyncError>)
        ensures
            self.inbox@.len() == 0 ==> r == Ok::<Status, SyncError>(Status::UpToDate),
            self.inbox@.len() > 0 ==> r == Ok::<Status, SyncError>(Status::NewChangesDetected),
    {
        if self.inbox.len() == 0 {
            Ok(Status::UpToDate)
        } else {
            Ok(Status::NewChangesDetected)
        }
    }

    /// Apply every pending write under the merge rule: the register
    /// ends exactly where folding the merge over the received pool
    /// leaves it, and the pool is emptied.  Fails when nothing is
    /// pending — the caller must first have observed
    /// `Status::NewChangesDetected`.
    pub fn handle(&mut self, message: SyncMessage) -> (r: Result<(), SyncError>)
        ensures
            old(self).inbox@.len() == 0 ==> r is Err && *final(self) == *old(self),
            old(self).inbox@.len() > 0 ==> {
                &&& r == Ok::<(), SyncError>(())
                &&& final(self).reg_entry() == apply_all(
                    old(self).reg_entry(),
                    entry_views(old(self).inbox@),
                )
                &&& final(self).inbox@.len() == 0
                &&& final(self).ops == old(self).ops
                &&& final(self).config == old(self).config
                &&& final(self).peers == old(self).peers
            },
    {
        match message {
            SyncMessage::Update => {
                if self.inbox.len() == 0 {
                    return Err(SyncError::NotConfigured);
                }
                let ghost orig = self.reg_entry();
                let ghost views = entry_views(self.inbox@);
                let mut cur = self.current_entry();
                let mut i: usize = 0;
                while i < self.inbox.len()
                    invariant
                        0 <= i <= self.inbox.len(),
                        views == entry_views(self.inbox@),
                        cur@ == apply_all(orig, views.take(i as int)),
                    decreases self.inbox.len() - i,
                {
                    let e = self.inbox[i].clone();
                    proof {
                        assert(e@ == views[i as int]);
                        lemma_apply_all_push(orig, views.take(i as int), views[i as int]);
                        assert(views.take(i as int + 1) =~= views.take(i as int).push(
                            views[i as int],
                        ));
                    }
                    merge_write(&mut cur, e);
                    i += 1;
                }
                proof {
                    assert(views.take(self.inbox@.len() as int) =~= views);
                }
                let Entry { value, marker, writer } = cur;
                reg_set(&mut self.curr_setting, value, marker);
                self.current_writer = writer;
                self.inbox = Vec::new();
                Ok(())
            },
        }
    }
}

impl Synchronization for CRDTSync {
    fn sync(&mut self) -> Result<Status, SyncError> {
        CRDTSync::sync(self)
    }

    fn handle(&mut self, message: SyncMessage) -> Result<(), SyncError> {
        CRDTSync::handle(self, message)
    }
}

} // verus!
