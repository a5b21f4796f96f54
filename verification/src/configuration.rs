//! The configuration record shared across a user's devices.
//!
//! The record itself is owned by the host's configuration store;
//! providers receive snapshots of it and write whole records back.
//! Loading and saving the record on disk is the host's business and
//! stays outside this crate.

use vstd::prelude::*;

use crate::color_scheme::ColorScheme;
use crate::sync::config::Services;

verus! {

/// Which reconciliation strategy is active.  Exactly one provider is
/// active at a time, chosen by the configuration's `active_service`
/// field; switching providers does not migrate data between them.
#[derive(Clone, Copy, Debug, PartialEq, Eq, Structural)]
pub enum Service {
    /// The version-control-backed strategy.
    Git,
    /// The conflict-free-replication strategy.
    Crdt,
}

impl Default for Service {
    fn default() -> (r: Self)
        ensures
            r == Service::Git,
    {
        Service::Git
    }
}

/// One device's view of the shared configuration record.
#[derive(Clone, Debug)]
pub struct Configuration {
    /// The desktop color scheme to apply.
    pub color_scheme: ColorScheme,
    /// The path of the wallpaper image to apply.
    pub wallpaper: String,
    /// Which synchronization service reconciles this record.
    pub active_service: Service,
    /// The per-service settings.
    pub service_config: Services,
}

impl Configuration {
    /// A record with every field at its default.
    pub fn new() -> (r: Self)
        ensures
            r.color_scheme == ColorScheme::Default,
            r.wallpaper@ == Seq::<char>::empty(),
            r.active_service == Service::Git,
            r.service_config.is_default(),
    {
        Configuration {
            color_scheme: ColorScheme::Default,
            wallpaper: String::new(),
            active_service: Service::Git,
            service_config: Services::new(),
        }
    }
}

impl Default for Configuration {
    fn default() -> (r: Self)
        ensures
            r.color_scheme == ColorScheme::Default,
            r.wallpaper@ == Seq::<char>::empty(),
            r.active_service == Service::Git,
            r.service_config.is_default(),
    {
        Configuration::new()
    }
}

} // verus!
