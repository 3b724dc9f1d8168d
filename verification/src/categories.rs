//! The closed classification buckets for service definitions.

use vstd::prelude::*;

verus! {

/// A closed enumeration partitioning service definitions into domains.
///
/// Every definition belongs to exactly one category. Adding a category is a
/// deliberate, centrally reviewed change, unlike adding a definition, which
/// is decentralized.
#[derive(Clone, Copy, PartialEq, Eq, Structural, Debug, Hash)]
pub enum ServiceCategory {
    /// Network-infrastructure discovery and documentation tooling.
    VantageNet,
    /// Routers, switches, gateways and other network plumbing.
    NetworkInfrastructure,
    /// File, block and object storage services.
    Storage,
    /// Authentication and identity providers.
    Identity,
}

} // verus!
