use linkerd_admin::admission::{
    accept_connection, classify, detect_step, AdmissionError, DetectOutcome, DetectState, Http, HttpVersion, Tcp,
    TlsParams, DETECT_TIMEOUT_MS,
};
use linkerd_admin::tls::{ConditionalServerTls, NoServerTls};

fn plaintext() -> ConditionalServerTls {
    ConditionalServerTls::NoTls(NoServerTls::NoClientHello)
}

fn meshed() -> ConditionalServerTls {
    ConditionalServerTls::Established { client_id: Some("web.ns.serviceaccount.identity.linkerd.cluster.local".to_string()) }
}

fn passthru() -> ConditionalServerTls {
    ConditionalServerTls::Passthru { sni: "other.example.com".to_string() }
}

fn tcp(tls: ConditionalServerTls) -> Tcp {
    Tcp::new(tls, "192.168.1.7:40000".to_string(), "10.0.0.1:4191".to_string())
}

enum Expect {
    Version(HttpVersion),
    NonHttp,
    Sni,
}

fn check(outcome: DetectOutcome, tls: ConditionalServerTls, expect: Expect) {
    let r = classify(outcome, tcp(tls));
    match (r, expect) {
        (Ok(Http { tcp, version }), Expect::Version(v)) => {
            assert_eq!(version, v);
            assert_eq!(tcp.client, "192.168.1.7:40000");
            assert_eq!(tcp.addr, "10.0.0.1:4191");
        }
        (Err(AdmissionError::NonHttpClient { client }), Expect::NonHttp) => {
            assert_eq!(client, "192.168.1.7:40000");
        }
        (Err(AdmissionError::UnexpectedSni { sni, client }), Expect::Sni) => {
            assert_eq!(sni, "other.example.com");
            assert_eq!(client, "192.168.1.7:40000");
        }
        (r, _) => panic!("unexpected outcome: {:?}", r),
    }
}

#[test]
fn fallback_table_covers_every_combination() {
    let h1 = DetectOutcome::Detected(HttpVersion::Http1);
    let h2 = DetectOutcome::Detected(HttpVersion::H2);
    check(h1, plaintext(), Expect::Version(HttpVersion::Http1));
    check(h2, meshed(), Expect::Version(HttpVersion::H2));
    check(h1, passthru(), Expect::Version(HttpVersion::Http1));
    check(DetectOutcome::TimedOut, plaintext(), Expect::Version(HttpVersion::Http1));
    check(DetectOutcome::TimedOut, meshed(), Expect::Version(HttpVersion::H2));
    check(DetectOutcome::TimedOut, passthru(), Expect::Sni);
    check(DetectOutcome::NotHttp, plaintext(), Expect::NonHttp);
    check(DetectOutcome::NotHttp, meshed(), Expect::NonHttp);
    check(DetectOutcome::NotHttp, passthru(), Expect::Sni);
}

#[test]
fn timeout_without_tls_is_http1() {
    check(DetectOutcome::TimedOut, ConditionalServerTls::NoTls(NoServerTls::Disabled), Expect::Version(HttpVersion::Http1));
    check(DetectOutcome::TimedOut, ConditionalServerTls::NoTls(NoServerTls::Loopback), Expect::Version(HttpVersion::Http1));
}

#[test]
fn timeout_with_mesh_tls_is_h2() {
    check(DetectOutcome::TimedOut, ConditionalServerTls::Established { client_id: None }, Expect::Version(HttpVersion::H2));
}

#[test]
fn timeout_with_passthru_is_unexpected_sni() {
    check(DetectOutcome::TimedOut, passthru(), Expect::Sni);
}

#[test]
fn not_http_with_passthru_is_unexpected_sni() {
    check(DetectOutcome::NotHttp, passthru(), Expect::Sni);
}

#[test]
fn not_http_otherwise_is_non_http_client() {
    check(DetectOutcome::NotHttp, plaintext(), Expect::NonHttp);
    check(DetectOutcome::NotHttp, ConditionalServerTls::Established { client_id: None }, Expect::NonHttp);
}

#[test]
fn silent_plaintext_connection_is_served_as_http1() {
    let state = detect_step(1001, None);
    assert_eq!(state, DetectState::Done(DetectOutcome::TimedOut));
    let outcome = match state {
        DetectState::Done(o) => o,
        DetectState::Detecting => panic!("still detecting"),
    };
    check(outcome, plaintext(), Expect::Version(HttpVersion::Http1));
}

#[test]
fn detection_before_deadline() {
    assert_eq!(detect_step(0, None), DetectState::Detecting);
    assert_eq!(detect_step(999, None), DetectState::Detecting);
    assert_eq!(detect_step(1000, None), DetectState::Done(DetectOutcome::TimedOut));
    assert_eq!(
        detect_step(10, Some(Some(HttpVersion::H2))),
        DetectState::Done(DetectOutcome::Detected(HttpVersion::H2))
    );
    assert_eq!(detect_step(10, Some(None)), DetectState::Done(DetectOutcome::NotHttp));
    assert_eq!(
        detect_step(1000, Some(Some(HttpVersion::Http1))),
        DetectState::Done(DetectOutcome::TimedOut)
    );
}

#[test]
fn admission_error_messages() {
    let e = AdmissionError::NonHttpClient { client: "1.2.3.4:5".to_string() };
    assert_eq!(e.message(), "non-HTTP connection from 1.2.3.4:5");
    let e = AdmissionError::UnexpectedSni { sni: "a.b".to_string(), client: "1.2.3.4:5".to_string() };
    assert_eq!(e.message(), "Unexpected TLS connection to a.b from 1.2.3.4:5");
}

#[test]
fn http_target_params() {
    let http = match classify(DetectOutcome::Detected(HttpVersion::H2), tcp(meshed())) {
        Ok(h) => h,
        Err(e) => panic!("refused: {:?}", e),
    };
    assert_eq!(http.version(), HttpVersion::H2);
    assert_eq!(http.orig_dst_addr(), "10.0.0.1:4191");
    assert_eq!(http.server_label(), "default:admin");
    assert_eq!(
        http.endpoint_labels().fmt_labels(),
        "direction=\"inbound\",target_addr=\"10.0.0.1:4191\",tls=\"true\",client_id=\"web.ns.serviceaccount.identity.linkerd.cluster.local\",srv_name=\"default:admin\",saz_name=\"default:all-unauthenticated\""
    );
}

#[test]
fn tcp_transport_key() {
    let t = tcp(passthru());
    let key = t.transport_key();
    assert_eq!(key.target_addr, "10.0.0.1:4191");
    assert_eq!(key.server, "default:admin");
    match key.tls {
        ConditionalServerTls::Passthru { sni } => assert_eq!(sni, "other.example.com"),
        other => panic!("unexpected tls: {:?}", other),
    }
}

#[test]
fn tls_params() {
    let p = TlsParams { identity: Some(7u8) };
    assert_eq!(p.extract_timeout(), DETECT_TIMEOUT_MS);
    assert_eq!(DETECT_TIMEOUT_MS, 1000);
    assert_eq!(p.extract_identity(), &Some(7u8));
    let (tls, target) = p.insert_param(plaintext(), "target");
    assert_eq!(target, "target");
    assert!(matches!(tls, ConditionalServerTls::NoTls(NoServerTls::NoClientHello)));
    let none: TlsParams<u8> = TlsParams { identity: None };
    assert_eq!(none.extract_identity(), &None);
}

#[test]
fn accepted_connection_runs_every_stage() {
    let (transport, admitted) = accept_connection(
        ConditionalServerTls::NoTls(NoServerTls::NoClientHello),
        "192.168.1.7:40000".to_string(),
        "10.0.0.1:4191".to_string(),
        DetectOutcome::TimedOut,
    );
    assert_eq!(transport.target_addr, "10.0.0.1:4191");
    assert_eq!(transport.server, "default:admin");
    let a = admitted.expect("plaintext timeout is served");
    assert_eq!(a.http.version, HttpVersion::Http1);
    assert_eq!(
        a.endpoint.fmt_labels(),
        "direction=\"inbound\",target_addr=\"10.0.0.1:4191\",tls=\"no_identity\",no_tls_reason=\"no_tls_from_remote\",srv_name=\"default:admin\",saz_name=\"default:all-unauthenticated\""
    );

    let (transport, refused) = accept_connection(
        ConditionalServerTls::Passthru { sni: "s.example".to_string() },
        "1.1.1.1:9".to_string(),
        "10.0.0.1:4191".to_string(),
        DetectOutcome::NotHttp,
    );
    assert!(matches!(transport.tls, ConditionalServerTls::Passthru { .. }));
    match refused {
        Err(AdmissionError::UnexpectedSni { sni, client }) => {
            assert_eq!(sni, "s.example");
            assert_eq!(client, "1.1.1.1:9");
        }
        other => panic!("unexpected: {:?}", other),
    }
}
