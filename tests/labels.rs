use linkerd_admin::labels::{
    prefix_labels, Class, ControlLabels, Direction, EndpointLabels, InboundEndpointLabels,
    OutboundEndpointLabels, PolicyLabels, RouteLabels, StackLabels, SuccessOrFailure,
};
use linkerd_admin::tls::{ConditionalClientTls, ConditionalServerTls, NoClientTls, NoServerTls};

fn pairs(items: &[(&str, &str)]) -> Vec<(String, String)> {
    items.iter().map(|(k, v)| (k.to_string(), v.to_string())).collect()
}

#[test]
fn inbound_labels_without_policy() {
    let labels = InboundEndpointLabels {
        tls: ConditionalServerTls::NoTls(NoServerTls::Loopback),
        authority: None,
        target_addr: "10.0.0.1:80".to_string(),
        policy: PolicyLabels::default(),
    };
    assert_eq!(
        EndpointLabels::from(labels).fmt_labels(),
        "direction=\"inbound\",target_addr=\"10.0.0.1:80\",tls=\"no_identity\",no_tls_reason=\"loopback\""
    );
}

#[test]
fn inbound_labels_with_authority_and_policy() {
    let labels = InboundEndpointLabels {
        tls: ConditionalServerTls::Passthru { sni: "x.example".to_string() },
        authority: Some("web.ns:8080".to_string()),
        target_addr: "10.0.0.1:80".to_string(),
        policy: PolicyLabels {
            server: pairs(&[("name", "web"), ("kind", "server")]),
            authz: pairs(&[("name", "all")]),
        },
    };
    assert_eq!(
        labels.fmt_labels(),
        "authority=\"web.ns:8080\",target_addr=\"10.0.0.1:80\",tls=\"opaque\",sni=\"x.example\",srv_name=\"web\",srv_kind=\"server\",saz_name=\"all\""
    );
}

#[test]
fn server_tls_renderings() {
    let render = |tls| {
        InboundEndpointLabels { tls, authority: None, target_addr: "a:1".to_string(), policy: PolicyLabels::default() }
            .fmt_labels()
    };
    assert_eq!(render(ConditionalServerTls::NoTls(NoServerTls::Disabled)), "target_addr=\"a:1\",tls=\"disabled\"");
    assert_eq!(
        render(ConditionalServerTls::NoTls(NoServerTls::PortSkipped)),
        "target_addr=\"a:1\",tls=\"no_identity\",no_tls_reason=\"port_skipped\""
    );
    assert_eq!(
        render(ConditionalServerTls::NoTls(NoServerTls::NoClientHello)),
        "target_addr=\"a:1\",tls=\"no_identity\",no_tls_reason=\"no_tls_from_remote\""
    );
    assert_eq!(
        render(ConditionalServerTls::Established { client_id: None }),
        "target_addr=\"a:1\",tls=\"true\",client_id=\"\""
    );
    assert_eq!(
        render(ConditionalServerTls::Established { client_id: Some("id".to_string()) }),
        "target_addr=\"a:1\",tls=\"true\",client_id=\"id\""
    );
}

#[test]
fn outbound_labels() {
    let labels = OutboundEndpointLabels {
        server_id: ConditionalClientTls::Tls { server_id: "svc.id".to_string() },
        authority: Some("svc:80".to_string()),
        labels: Some("dst_pod=\"p\"".to_string()),
        target_addr: "10.1.1.1:80".to_string(),
    };
    assert_eq!(
        EndpointLabels::from(labels).fmt_labels(),
        "direction=\"outbound\",authority=\"svc:80\",target_addr=\"10.1.1.1:80\",tls=\"true\",server_id=\"svc.id\",dst_pod=\"p\""
    );
    let labels = OutboundEndpointLabels {
        server_id: ConditionalClientTls::NoTls(NoClientTls::NotProvidedByServiceDiscovery),
        authority: None,
        labels: None,
        target_addr: "10.1.1.1:80".to_string(),
    };
    assert_eq!(
        labels.fmt_labels(),
        "target_addr=\"10.1.1.1:80\",tls=\"no_identity\",no_tls_reason=\"not_provided_by_service_discovery\""
    );
}

#[test]
fn control_labels() {
    let l = ControlLabels::new("dst.linkerd:8086".to_string(), ConditionalClientTls::NoTls(NoClientTls::Disabled));
    assert_eq!(l.fmt_labels(), "addr=\"dst.linkerd:8086\",tls=\"disabled\"");
    let l = ControlLabels::new("x:1".to_string(), ConditionalClientTls::NoTls(NoClientTls::IngressNonHttp));
    assert_eq!(l.fmt_labels(), "addr=\"x:1\",tls=\"no_identity\",no_tls_reason=\"ingress_non_http\"");
}

#[test]
fn direction_text() {
    assert_eq!(Direction::In.fmt(), "inbound");
    assert_eq!(Direction::Out.fmt(), "outbound");
    assert_eq!(Direction::In.fmt_labels(), "direction=\"inbound\"");
    assert_eq!(Direction::Out.fmt_labels(), "direction=\"outbound\"");
}

#[test]
fn prefix_labels_empty_is_none() {
    assert_eq!(prefix_labels("rt", &Vec::new()), None);
}

#[test]
fn prefix_labels_joins_in_order() {
    assert_eq!(prefix_labels("rt", &pairs(&[("a", "1")])), Some("rt_a=\"1\"".to_string()));
    assert_eq!(
        prefix_labels("rt", &pairs(&[("b", "2"), ("a", "1"), ("c", "")])),
        Some("rt_b=\"2\",rt_a=\"1\",rt_c=\"\"".to_string())
    );
}

#[test]
fn route_labels() {
    let r = RouteLabels::new(Direction::Out, "web.ns.svc.cluster.local:80".to_string(), &pairs(&[("route", "get")]));
    assert_eq!(r.labels, Some("rt_route=\"get\"".to_string()));
    assert_eq!(r.fmt_labels(), "direction=\"outbound\",dst=\"web.ns.svc.cluster.local:80\",rt_route=\"get\"");
    let r = RouteLabels::new(Direction::In, "web:80".to_string(), &Vec::new());
    assert_eq!(r.fmt_labels(), "direction=\"inbound\",dst=\"web:80\"");
}

#[test]
fn stack_labels() {
    let s = StackLabels::inbound("http", "admin");
    assert_eq!(s.direction, Direction::In);
    assert_eq!(s.fmt_labels(), "direction=\"inbound\",protocol=\"http\",name=\"admin\"");
    let s = StackLabels::outbound("tcp", "balance");
    assert_eq!(s, StackLabels { direction: Direction::Out, protocol: "tcp", name: "balance" });
    assert_eq!(s.fmt_labels(), "direction=\"outbound\",protocol=\"tcp\",name=\"balance\"");
}

#[test]
fn class_labels() {
    assert_eq!(Class::Default(SuccessOrFailure::Success).fmt_labels(), "classification=\"success\"");
    assert_eq!(
        Class::Grpc(SuccessOrFailure::Failure, 14).fmt_labels(),
        "classification=\"failure\",grpc_status=\"14\""
    );
    assert_eq!(Class::Grpc(SuccessOrFailure::Success, 0).fmt_labels(), "classification=\"success\",grpc_status=\"0\"");
    assert_eq!(
        Class::Grpc(SuccessOrFailure::Failure, u32::MAX).fmt_labels(),
        "classification=\"failure\",grpc_status=\"4294967295\""
    );
    assert_eq!(
        Class::Stream(SuccessOrFailure::Failure, "reset".to_string()).fmt_labels(),
        "classification=\"failure\",error=\"reset\""
    );
    assert_eq!(SuccessOrFailure::Failure.fmt(), "failure");
}
