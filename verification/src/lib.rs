//! A catalog of known network-service signatures.
//!
//! Independently authored service definitions describe how a service can be
//! detected over the wire (transport, port, path, protocol identifier). Each
//! definition is wrapped in a factory that erases its concrete type, the
//! factories are submitted to a process-wide [`registry::Registry`], and
//! consumers enumerate the frozen registry to drive their probes. The core
//! performs no network I/O itself: it only describes what to look for and
//! exposes a queryable catalog.

pub mod categories;
pub mod definitions;
pub mod patterns;
pub mod ports;
pub mod registry;
pub mod vantagenet_server;
