//! Keeps a small personal-configuration record consistent across the
//! devices of one user.  The heart of the crate is the synchronization
//! engine: it decides whether a device is ahead of, behind, or diverged
//! from the shared source of truth and reconciles divergence safely,
//! either through a version-control-backed strategy or through a
//! conflict-free replication strategy.

pub mod color_scheme;
pub mod configuration;
pub mod pages;
pub mod sync;
