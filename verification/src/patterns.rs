//! Typed descriptions of how a service can be detected over the wire.

use vstd::prelude::*;
use crate::ports::{PortType, Transport};

verus! {

/// An immutable description of one detection strategy.
///
/// A pattern is pure data: it is consumed by an external probing engine and
/// never interpreted by this catalog. New strategies are added as new
/// variants, each carrying exactly the fields its probe needs; consumers must
/// handle every variant, so an addition is a deliberate, compile-time-visible
/// change.
#[derive(PartialEq, Eq, Debug)]
pub enum Pattern {
    /// Probe a networked endpoint: open a connection of the given transport
    /// to the given port and issue a request to the given path, interpreting
    /// a well-formed response as a match for the protocol identifier. The
    /// final field is an optional auxiliary matcher applied to the response.
    Endpoint(PortType, String, String, Option<String>),
}

/// The mathematical model of a [`Pattern`]: the same shape with every string
/// replaced by its character sequence and the port spelled out as transport
/// and number.
#[verifier::ext_equal]
pub enum PatternModel {
    Endpoint {
        transport: Transport,
        port: u16,
        path: Seq<char>,
        protocol_id: Seq<char>,
        extra: Option<Seq<char>>,
    },
}

impl View for Pattern {
    type V = PatternModel;

    open spec fn view(&self) -> PatternModel {
        match self {
            Pattern::Endpoint(port_spec, path, protocol_id, extra) => PatternModel::Endpoint {
                transport: port_spec.spec_transport(),
                port: port_spec.spec_port(),
                path: path@,
                protocol_id: protocol_id@,
                extra: match extra {
                    Some(s) => Some(s@),
                    None => None,
                },
            },
        }
    }
}

impl Clone for Pattern {
    /// A cloned pattern describes exactly the same detection strategy.
    fn clone(&self) -> (r: Self)
        ensures
            r@ == self@,
    {
        match self {
            Pattern::Endpoint(port_spec, path, protocol_id, extra) => Pattern::Endpoint(
                *port_spec,
                path.clone(),
                protocol_id.clone(),
                match extra {
                    Some(s) => Some(s.clone()),
                    None => None,
                },
            ),
        }
    }
}

} // verus!
