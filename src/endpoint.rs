//! Collector endpoints and the choice of transport for exporting metrics.

use vstd::prelude::*;

verus! {

/// The port on which a collector speaks gRPC.
pub const GRPC_PORT: u16 = 4317;

#[verifier::external_type_specification]
#[verifier::external_body]
pub struct ExUri(http::Uri);

#[verifier::external_type_specification]
#[verifier::external_body]
pub struct ExInvalidUri(http::uri::InvalidUri);

/// Whether `http::Uri` accepts the text `s`.
pub uninterp spec fn is_uri(s: Seq<char>) -> bool;

/// Relies on `<http::Uri as FromStr>::from_str`, which succeeds exactly on
/// the texts that `http` accepts as a URI; which those are depends on the
/// text alone.
#[verifier::external_body]
fn parse_uri(s: &str) -> (r: Result<http::Uri, http::uri::InvalidUri>)
    ensures
        r is Ok <==> is_uri(s@),
{
    s.parse::<http::Uri>()
}

/// Relies on `http::Uri::port_u16`: the URI's explicit port, if it has one.
pub assume_specification[ http::Uri::port_u16 ](self_: &http::Uri) -> Option<u16>;

/// A collector endpoint, as far as the exporter setup reads it.
#[derive(Clone, Copy, Debug, PartialEq, Eq, Structural)]
pub struct Endpoint {
    /// The port written in the endpoint's URI, if any.
    pub port: Option<u16>,
}

/// How metrics travel to the collector.
#[derive(Clone, Copy, Debug, PartialEq, Eq, Structural)]
pub enum Transport {
    Grpc,
    Http,
}

/// gRPC on the gRPC port, HTTP on any other port or on none.
pub open spec fn transport_for(port: Option<u16>) -> Transport {
    if port == Some(GRPC_PORT) {
        Transport::Grpc
    } else {
        Transport::Http
    }
}

/// The transport for exporting metrics to `e`.
pub fn metrics_transport(e: &Endpoint) -> (r: Transport)
    ensures
        r == transport_for(e.port),
        r == Transport::Grpc <==> e.port == Some(GRPC_PORT),
{
    match e.port {
        Some(p) => {
            if p == GRPC_PORT {
                Transport::Grpc
            } else {
                Transport::Http
            }
        },
        None => Transport::Http,
    }
}

/// Reads the value of an endpoint setting. An absent value and one that is
/// not a URI both leave the endpoint unset.
pub fn endpoint_from_value(value: Option<&str>) -> (r: Option<Endpoint>)
    ensures
        r is Some <==> (value matches Some(s) && is_uri(s@)),
{
    match value {
        None => None,
        Some(s) => match parse_uri(s) {
            Ok(uri) => Some(Endpoint { port: uri.port_u16() }),
            Err(_) => None,
        },
    }
}

} // verus!
