use otel_demo_service::endpoint::{endpoint_from_value, metrics_transport, Endpoint, Transport, GRPC_PORT};

#[test]
fn grpc_port_selects_grpc() {
    assert_eq!(metrics_transport(&Endpoint { port: Some(4317) }), Transport::Grpc);
    assert_eq!(GRPC_PORT, 4317);
}

#[test]
fn other_ports_select_http() {
    assert_eq!(metrics_transport(&Endpoint { port: Some(4318) }), Transport::Http);
    assert_eq!(metrics_transport(&Endpoint { port: Some(80) }), Transport::Http);
    assert_eq!(metrics_transport(&Endpoint { port: Some(0) }), Transport::Http);
    assert_eq!(metrics_transport(&Endpoint { port: Some(u16::MAX) }), Transport::Http);
}

#[test]
fn no_port_selects_http() {
    assert_eq!(metrics_transport(&Endpoint { port: None }), Transport::Http);
}

#[test]
fn endpoint_reads_port_of_uri() {
    assert_eq!(
        endpoint_from_value(Some("http://collector:4317")),
        Some(Endpoint { port: Some(4317) })
    );
    assert_eq!(
        endpoint_from_value(Some("http://localhost:4318/v1/metrics")),
        Some(Endpoint { port: Some(4318) })
    );
}

#[test]
fn endpoint_without_port() {
    assert_eq!(
        endpoint_from_value(Some("http://collector")),
        Some(Endpoint { port: None })
    );
    assert_eq!(
        endpoint_from_value(Some("http://collector:notaport")),
        Some(Endpoint { port: None })
    );
}

#[test]
fn absent_endpoint_is_unset() {
    assert_eq!(endpoint_from_value(None), None);
}

#[test]
fn unparseable_endpoint_is_unset() {
    assert_eq!(endpoint_from_value(Some("")), None);
    assert_eq!(endpoint_from_value(Some("http://exa mple:4317")), None);
    assert_eq!(endpoint_from_value(Some("not a uri")), None);
}
