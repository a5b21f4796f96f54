//! Per-service settings stored inside the configuration record.

use vstd::prelude::*;

verus! {

/// The number of bytes in a replica key.
pub const KEY_LEN: usize = 32;

/// Remote location and toggle for the version-control strategy.
#[derive(Clone, Debug)]
pub struct GitConfig {
    /// The remote repository location.
    pub url: String,
    /// The user name offered during credential negotiation.
    pub username: String,
    /// Whether the version-control strategy is switched on.
    pub enabled: bool,
}

impl GitConfig {
    /// True when every field holds its default value.
    pub open spec fn is_default(&self) -> bool {
        &&& self.url@ == Seq::<char>::empty()
        &&& self.username@ == Seq::<char>::empty()
        &&& !self.enabled
    }

    /// A configuration with no remote and the strategy switched off.
    pub fn new() -> (r: Self)
        ensures
            r.is_default(),
    {
        GitConfig { url: String::new(), username: String::new(), enabled: false }
    }
}

impl Default for GitConfig {
    fn default() -> (r: Self)
        ensures
            r.is_default(),
    {
        GitConfig::new()
    }
}

/// Key material and toggle for the conflict-free-replication
/// strategy.  The keypair identifies this replica among its peers; it
/// is generated once by the host and handed in as plain bytes.  The
/// secret key stays local to the process and is never written into
/// the shared record.
#[derive(Clone, Debug)]
pub struct CrdtConfig {
    /// The public half of the replica keypair; identifies the replica.
    pub public_key: Vec<u8>,
    /// The secret half of the replica keypair; never shared.
    pub secret_key: Vec<u8>,
    /// Whether the replication strategy is switched on.
    pub enabled: bool,
}

impl CrdtConfig {
    /// A keypair is either absent (not generated yet) or exactly
    /// `KEY_LEN` bytes long.
    pub open spec fn well_formed(&self) -> bool {
        &&& self.public_key@.len() == 0 || self.public_key@.len() == KEY_LEN
        &&& self.secret_key@.len() == 0 || self.secret_key@.len() == KEY_LEN
    }

    /// True when no keypair exists and the strategy is switched off.
    pub open spec fn is_default(&self) -> bool {
        &&& self.public_key@.len() == 0
        &&& self.secret_key@.len() == 0
        &&& !self.enabled
    }

    /// A configuration with no keypair and the strategy switched off.
    pub fn new() -> (r: Self)
        ensures
            r.is_default(),
            r.well_formed(),
    {
        CrdtConfig { public_key: Vec::new(), secret_key: Vec::new(), enabled: false }
    }
}

impl Default for CrdtConfig {
    fn default() -> (r: Self)
        ensures
            r.is_default(),
            r.well_formed(),
    {
        CrdtConfig::new()
    }
}

/// The settings of both synchronization services.
#[derive(Clone, Debug)]
pub struct Services {
    /// Settings for the version-control strategy.
    pub git: GitConfig,
    /// Settings for the replication strategy.
    pub crdt: CrdtConfig,
}

impl Services {
    /// True when both services hold their default settings.
    pub open spec fn is_default(&self) -> bool {
        self.git.is_default() && self.crdt.is_default()
    }

    /// Settings with both services at their defaults.
    pub fn new() -> (r: Self)
        ensures
            r.is_default(),
    {
        Services { git: GitConfig::new(), crdt: CrdtConfig::new() }
    }
}

impl Default for Services {
    fn default() -> (r: Self)
        ensures
            r.is_default(),
    {
        Services::new()
    }
}

} // verus!
