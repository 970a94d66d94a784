//! Decentralized validator-network bootstrap: layout manifest, per-namespace
//! key custody, deterministic genesis assembly, and waypoint verification.
//!
//! Multiple parties (one association authority, N operators) each hold a
//! private, namespaced secret store. From published public material alone they
//! converge on a single deterministic genesis and a waypoint that every node
//! re-derives and checks before trusting the network.
//!
//! The pipeline of one round, module by module: a [`layout`] manifest is
//! published once and read by all; [`custody`] materializes each namespace's
//! keys idempotently against the [`store`] model; [`genesis`] assembles the
//! deterministic genesis from the published records; [`waypoint`] computes,
//! publishes and distributes the checkpoint that [`verification`] holds
//! candidates against; [`binder`] turns stored network keys into node-level
//! network configuration; [`connectivity`] bounds the post-launch check.

use vstd::prelude::*;

pub mod binder;
pub mod connectivity;
pub mod custody;
pub mod genesis;
pub mod keys;
pub mod layout;
pub mod net;
pub mod store;
pub mod verification;
pub mod waypoint;

verus! {

/// Failures of the bootstrap protocol. Each step that can fail names its
/// error kind exactly in its contract.
#[derive(Debug, Clone, PartialEq, Eq)]
pub enum BootstrapError {
    /// The underlying secret store cannot be opened.
    StorageUnavailable,
    /// An expected key or namespace is absent at the step that needed it.
    NotFound,
    /// A layout manifest or stored record is malformed.
    ParseError,
    /// An operator named by the layout has not submitted its record;
    /// carries the offending namespace.
    IncompleteSubmission(String),
    /// Two operators resolve to the same account address.
    DuplicateAccount,
    /// A stored value has the wrong shape for the slot it occupies.
    MalformedRecord,
    /// A re-derived waypoint disagrees with the published one.
    WaypointMismatch,
    /// A node did not reach the expected peer count within the poll budget.
    ConnectivityTimeout,
}

} // verus!
