//! The service definition for a VantageNet server.

use vstd::prelude::*;
use crate::categories::ServiceCategory;
use crate::patterns::{Pattern, PatternModel};
use crate::ports::{PortType, Transport};
use crate::definitions::ServiceDefinition;

verus! {

/// A VantageNet server, detected through its HTTP health endpoint.
#[derive(Clone, Copy, PartialEq, Eq, Structural, Debug, Hash)]
pub struct VantageNetServer;

impl Default for VantageNetServer {
    fn default() -> (r: VantageNetServer)
        ensures
            r == VantageNetServer,
    {
        VantageNetServer
    }
}

impl ServiceDefinition for VantageNetServer {
    open spec fn spec_name(&self) -> Seq<char> {
        "VantageNet Server"@
    }

    open spec fn spec_description(&self) -> Seq<char> {
        "Automatically discover and visually document network infrastructure"@
    }

    open spec fn spec_category(&self) -> ServiceCategory {
        ServiceCategory::VantageNet
    }

    open spec fn spec_discovery_pattern(&self) -> PatternModel {
        PatternModel::Endpoint {
            transport: Transport::Tcp,
            port: 60072,
            path: "/api/health"@,
            protocol_id: "vantagenet"@,
            extra: None,
        }
    }

    open spec fn spec_logo_url(&self) -> Seq<char> {
        "/logos/vantagenet-logo.png"@
    }

    fn name(&self) -> (r: &'static str)
        ensures
            r@ == self.spec_name(),
    {
        "VantageNet Server"
    }

    fn description(&self) -> (r: &'static str)
        ensures
            r@ == self.spec_description(),
    {
        "Automatically discover and visually document network infrastructure"
    }

    fn category(&self) -> (r: ServiceCategory)
        ensures
            r == self.spec_category(),
    {
        ServiceCategory::VantageNet
    }

    fn discovery_pattern(&self) -> (r: Pattern)
        ensures
            r@ == self.spec_discovery_pattern(),
    {
        Pattern::Endpoint(
            PortType::new_tcp(60072),
            "/api/health".to_owned(),
            "vantagenet".to_owned(),
            None,
        )
    }

    fn logo_url(&self) -> (r: &'static str)
        ensures
            r@ == self.spec_logo_url(),
    {
        "/logos/vantagenet-logo.png"
    }
}

} // verus!
