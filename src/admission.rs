//! Admission of a connection to the administrative listener: the deadline
//! of protocol detection, the fallback policy applied to its outcome, the
//! typed targets that flow through the stack, and the mapping of handler
//! errors to synthetic responses.

use crate::labels::{
    comma_prefixed, direction_labels, endpoint_labels, target_addr_labels, Direction,
    EndpointLabels, InboundEndpointLabels, LabelPairs, PolicyLabels,
};
use crate::text::quoted_label;
use crate::tls::{tls_accept_labels, ConditionalServerTls};
use vstd::prelude::*;
use vstd::string::*;

verus! {

/// How long TLS detection and HTTP detection may each wait for a verdict.
pub const DETECT_TIMEOUT_MS: u64 = 1000;

/// The server label of the administrative listener.
pub const ADMIN_SERVER_LABEL: &'static str = "default:admin";

/// The authorization label of the administrative listener.
pub const ADMIN_AUTHZ_LABEL: &'static str = "default:all-unauthenticated";

/// An HTTP version that detection can report.
#[derive(Clone, Copy, Debug, PartialEq, Eq, Hash, Structural)]
pub enum HttpVersion {
    Http1,
    H2,
}

/// A terminal outcome of HTTP detection.
#[derive(Clone, Copy, Debug, PartialEq, Eq, Structural)]
pub enum DetectOutcome {
    /// The version was recognised.
    Detected(HttpVersion),
    /// Detection finished and concluded that the client does not speak HTTP.
    NotHttp,
    /// No verdict was reached before the deadline.
    TimedOut,
}

/// The state of HTTP detection on one connection.
#[derive(Clone, Copy, Debug, PartialEq, Eq, Structural)]
pub enum DetectState {
    Detecting,
    Done(DetectOutcome),
}

/// A raw connection accepted on the listener, after TLS classification.
#[derive(Debug)]
pub struct Tcp {
    /// The local address on which the connection was accepted.
    pub addr: String,
    /// The remote client's address.
    pub client: String,
    pub tls: ConditionalServerTls,
}

/// A connection known to carry HTTP.
#[derive(Debug)]
pub struct Http {
    pub tcp: Tcp,
    pub version: HttpVersion,
}

/// Why a connection was refused admission.
#[derive(Debug)]
pub enum AdmissionError {
    /// Detection concluded that the client does not speak HTTP.
    NonHttpClient { client: String },
    /// TLS meant for another server reached the listener.
    UnexpectedSni { sni: String, client: String },
}

/// Labels of the transport metrics of an accepted connection.
#[derive(Debug)]
pub struct TransportKey {
    pub tls: ConditionalServerTls,
    pub target_addr: String,
    pub server: String,
}

/// Parameters of TLS detection: its deadline and the local identity, if any.
pub struct TlsParams<I> {
    pub identity: Option<I>,
}

/// What the fallback policy decides for a connection.
#[derive(Clone, Copy, Debug, PartialEq, Eq, Structural)]
pub enum Decision {
    Serve(HttpVersion),
    RefuseNonHttp,
    RefuseUnexpectedSni,
}

/// The policy's decision, from the TLS state and the detection outcome alone.
pub open spec fn decision(outcome: DetectOutcome, tls: ConditionalServerTls) -> Decision {
    match (outcome, tls) {
        (DetectOutcome::Detected(v), _) => Decision::Serve(v),
        (DetectOutcome::TimedOut, ConditionalServerTls::NoTls(_)) => Decision::Serve(
            HttpVersion::Http1,
        ),
        (DetectOutcome::TimedOut, ConditionalServerTls::Established { .. }) => Decision::Serve(
            HttpVersion::H2,
        ),
        (_, ConditionalServerTls::Passthru { .. }) => Decision::RefuseUnexpectedSni,
        (DetectOutcome::NotHttp, _) => Decision::RefuseNonHttp,
    }
}

/// The state of detection `elapsed_ms` after it started, given the
/// detector's verdict if it has reached one. The deadline comes first: at
/// or past it, detection has timed out.
pub open spec fn detect_state(elapsed_ms: u64, verdict: Option<Option<HttpVersion>>) -> DetectState {
    if elapsed_ms >= DETECT_TIMEOUT_MS {
        DetectState::Done(DetectOutcome::TimedOut)
    } else {
        match verdict {
            Option::Some(Option::Some(v)) => DetectState::Done(DetectOutcome::Detected(v)),
            Option::Some(Option::None) => DetectState::Done(DetectOutcome::NotHttp),
            Option::None => DetectState::Detecting,
        }
    }
}

/// The version assumed when detection times out, if the TLS state allows a guess.
pub open spec fn timeout_version(tls: ConditionalServerTls) -> Option<HttpVersion> {
    match tls {
        ConditionalServerTls::NoTls(_) => Option::Some(HttpVersion::Http1),
        ConditionalServerTls::Established { .. } => Option::Some(HttpVersion::H2),
        ConditionalServerTls::Passthru { .. } => Option::None,
    }
}

/// The fallback policy: how a detection outcome and the connection's TLS
/// state decide between serving HTTP and refusing the connection.
pub open spec fn admission(outcome: DetectOutcome, tcp: Tcp) -> Result<Http, AdmissionError> {
    match outcome {
        DetectOutcome::Detected(version) => Ok(Http { tcp, version }),
        DetectOutcome::TimedOut => match tcp.tls {
            ConditionalServerTls::NoTls(_) => Ok(Http { tcp, version: HttpVersion::Http1 }),
            ConditionalServerTls::Established { .. } => Ok(Http { tcp, version: HttpVersion::H2 }),
            ConditionalServerTls::Passthru { sni } => Err(
                AdmissionError::UnexpectedSni { sni, client: tcp.client },
            ),
        },
        DetectOutcome::NotHttp => match tcp.tls {
            ConditionalServerTls::Passthru { sni } => Err(
                AdmissionError::UnexpectedSni { sni, client: tcp.client },
            ),
            _ => Err(AdmissionError::NonHttpClient { client: tcp.client }),
        },
    }
}

pub open spec fn admission_error_message(e: AdmissionError) -> Seq<char> {
    match e {
        AdmissionError::NonHttpClient { client } => "non-HTTP connection from "@ + client@,
        AdmissionError::UnexpectedSni { sni, client } => "Unexpected TLS connection to "@ + sni@
            + " from "@ + client@,
    }
}

/// The endpoint labels of an HTTP connection on the administrative listener.
pub open spec fn admin_endpoint_labels(http: Http) -> Seq<char> {
    direction_labels(Direction::In) + ","@ + target_addr_labels(http.tcp.addr@) + ","@
        + tls_accept_labels(http.tcp.tls) + ","@ + quoted_label("srv_name"@, "default:admin"@)
        + ","@ + quoted_label("saz_name"@, "default:all-unauthenticated"@)
}

/// Advances HTTP detection: `elapsed_ms` since it started, and the
/// detector's verdict (`Some(Some(v))`: version `v`; `Some(None)`: not HTTP)
/// if it has reached one.
pub fn detect_step(elapsed_ms: u64, verdict: Option<Option<HttpVersion>>) -> (r: DetectState)
    ensures
        r == detect_state(elapsed_ms, verdict),
{
    if elapsed_ms >= DETECT_TIMEOUT_MS {
        DetectState::Done(DetectOutcome::TimedOut)
    } else {
        match verdict {
            Some(Some(v)) => DetectState::Done(DetectOutcome::Detected(v)),
            Some(None) => DetectState::Done(DetectOutcome::NotHttp),
            None => DetectState::Detecting,
        }
    }
}

/// Applies the fallback policy to the outcome of detection on `tcp`.
///
/// A detected version is served as such. On a timeout, a plaintext
/// connection is assumed to speak HTTP/1 and a meshed one HTTP/2, while
/// passed-through TLS is refused with its SNI. When the client does not
/// speak HTTP, passed-through TLS is refused with its SNI and anything else
/// as a non-HTTP client.
pub fn classify(outcome: DetectOutcome, tcp: Tcp) -> (r: Result<Http, AdmissionError>)
    ensures
        r == admission(outcome, tcp),
{
    let Tcp { addr, client, tls } = tcp;
    match outcome {
        DetectOutcome::Detected(version) => Ok(Http { tcp: Tcp { addr, client, tls }, version }),
        DetectOutcome::TimedOut => match tls {
            ConditionalServerTls::Passthru { sni } => Err(
                AdmissionError::UnexpectedSni { sni, client },
            ),
            ConditionalServerTls::NoTls(reason) => Ok(
                Http {
                    tcp: Tcp { addr, client, tls: ConditionalServerTls::NoTls(reason) },
                    version: HttpVersion::Http1,
                },
            ),
            ConditionalServerTls::Established { client_id } => Ok(
                Http {
                    tcp: Tcp { addr, client, tls: ConditionalServerTls::Established { client_id } },
                    version: HttpVersion::H2,
                },
            ),
        },
        DetectOutcome::NotHttp => match tls {
            ConditionalServerTls::Passthru { sni } => Err(
                AdmissionError::UnexpectedSni { sni, client },
            ),
            _ => Err(AdmissionError::NonHttpClient { client }),
        },
    }
}

/// The outcome of admission depends on the connection's TLS state and the
/// detection outcome alone: a connection is served with the version that
/// `decision` names, unchanged, or refused with the error kind that it
/// names, carrying the connection's own client address and SNI.
pub proof fn lemma_admission_follows_decision(outcome: DetectOutcome, tcp: Tcp)
    ensures
        match decision(outcome, tcp.tls) {
            Decision::Serve(version) => admission(outcome, tcp) == Ok::<Http, AdmissionError>(
                Http { tcp, version },
            ),
            Decision::RefuseNonHttp => admission(outcome, tcp) == Err::<Http, AdmissionError>(
                AdmissionError::NonHttpClient { client: tcp.client },
            ),
            Decision::RefuseUnexpectedSni => tcp.tls matches ConditionalServerTls::Passthru { sni }
                && admission(outcome, tcp) == Err::<Http, AdmissionError>(
                AdmissionError::UnexpectedSni { sni, client: tcp.client },
            ),
        },
{
}

/// A timed-out detection serves plaintext connections as HTTP/1 and meshed
/// ones as HTTP/2, and refuses passed-through TLS with that connection's SNI.
pub proof fn lemma_timeout_fallback(tcp: Tcp)
    ensures
        tcp.tls matches ConditionalServerTls::NoTls(_) ==> admission(DetectOutcome::TimedOut, tcp)
            == Ok::<Http, AdmissionError>(Http { tcp, version: HttpVersion::Http1 }),
        tcp.tls matches ConditionalServerTls::Established { .. } ==> admission(
            DetectOutcome::TimedOut,
            tcp,
        ) == Ok::<Http, AdmissionError>(Http { tcp, version: HttpVersion::H2 }),
        tcp.tls matches ConditionalServerTls::Passthru { sni } ==> admission(
            DetectOutcome::TimedOut,
            tcp,
        ) == Err::<Http, AdmissionError>(AdmissionError::UnexpectedSni { sni, client: tcp.client }),
{
}

/// A client found not to speak HTTP is refused with the SNI of passed-through
/// TLS, and otherwise as a non-HTTP client with its actual address.
pub proof fn lemma_not_http_refused(tcp: Tcp)
    ensures
        tcp.tls matches ConditionalServerTls::Passthru { sni } ==> admission(
            DetectOutcome::NotHttp,
            tcp,
        ) == Err::<Http, AdmissionError>(AdmissionError::UnexpectedSni { sni, client: tcp.client }),
        !(tcp.tls is Passthru) ==> admission(DetectOutcome::NotHttp, tcp) == Err::<
            Http,
            AdmissionError,
        >(AdmissionError::NonHttpClient { client: tcp.client }),
{
}

/// A plaintext connection that sends nothing until past the detection
/// deadline is served as HTTP/1, not refused.
pub proof fn lemma_silent_plaintext_served_as_http1(elapsed_ms: u64, tcp: Tcp)
    requires
        elapsed_ms > DETECT_TIMEOUT_MS,
        tcp.tls is NoTls,
    ensures
        detect_state(elapsed_ms, Option::None) == DetectState::Done(DetectOutcome::TimedOut),
        admission(DetectOutcome::TimedOut, tcp) == Ok::<Http, AdmissionError>(
            Http { tcp, version: HttpVersion::Http1 },
        ),
{
}

impl AdmissionError {
    /// The error's message, naming the client and, for TLS meant for
    /// another server, the name it asked for.
    pub fn message(&self) -> (r: String)
        ensures
            r@ == admission_error_message(*self),
    {
        match self {
            AdmissionError::NonHttpClient { client } => {
                let mut out = String::from_str("non-HTTP connection from ");
                out.append(client.as_str());
                out
            },
            AdmissionError::UnexpectedSni { sni, client } => {
                let mut out = String::from_str("Unexpected TLS connection to ");
                out.append(sni.as_str());
                out.append(" from ");
                out.append(client.as_str());
                out
            },
        }
    }
}

impl Tcp {
    pub fn new(tls: ConditionalServerTls, client: String, addr: String) -> (r: Self)
        ensures
            r == (Tcp { addr, client, tls }),
    {
        Tcp { addr, client, tls }
    }

    /// The transport labels of an inbound connection to the admin server.
    pub fn transport_key(&self) -> (r: TransportKey)
        ensures
            r.tls.same_as(self.tls),
            r.target_addr@ == self.addr@,
            r.server@ == "default:admin"@,
    {
        TransportKey {
            tls: self.tls.duplicate(),
            target_addr: self.addr.clone(),
            server: String::from_str(ADMIN_SERVER_LABEL),
        }
    }
}

fn single_label(key: &str, value: &str) -> (r: LabelPairs)
    ensures
        r@.len() == 1,
        r@[0].0@ == key@,
        r@[0].1@ == value@,
{
    let mut v: LabelPairs = Vec::new();
    v.push((String::from_str(key), String::from_str(value)));
    v
}

impl Http {
    pub fn version(&self) -> (r: HttpVersion)
        ensures
            r == self.version,
    {
        self.version
    }

    /// The original destination: the address on which the connection was accepted.
    pub fn orig_dst_addr(&self) -> (r: String)
        ensures
            r@ == self.tcp.addr@,
    {
        self.tcp.addr.clone()
    }

    pub fn server_label(&self) -> (r: String)
        ensures
            r@ == "default:admin"@,
    {
        String::from_str(ADMIN_SERVER_LABEL)
    }

    /// The endpoint labels of this connection: inbound, without an
    /// authority, with the admin server's default policy.
    pub fn endpoint_labels(&self) -> (r: EndpointLabels)
        ensures
            r matches EndpointLabels::Inbound(i) && i.authority.is_none() && i.target_addr@
                == self.tcp.addr@ && i.tls.same_as(self.tcp.tls),
            endpoint_labels(r) == admin_endpoint_labels(*self),
    {
        let i = InboundEndpointLabels {
            tls: self.tcp.tls.duplicate(),
            authority: None,
            target_addr: self.tcp.addr.clone(),
            policy: PolicyLabels {
                server: single_label("name", ADMIN_SERVER_LABEL),
                authz: single_label("name", ADMIN_AUTHZ_LABEL),
            },
        };
        proof {
            let s = i.policy.server@;
            let a = i.policy.authz@;
            assert(s.drop_last() =~= Seq::<(String, String)>::empty());
            assert(a.drop_last() =~= Seq::<(String, String)>::empty());
            assert(comma_prefixed("srv"@, s.drop_last()) == Seq::<char>::empty());
            assert(comma_prefixed("saz"@, a.drop_last()) == Seq::<char>::empty());
            assert(s.last() == s[0]);
            assert(a.last() == a[0]);
            assert(comma_prefixed("srv"@, s) =~= ","@ + quoted_label(
                "srv"@ + "_"@ + "name"@,
                "default:admin"@,
            ));
            assert(comma_prefixed("saz"@, a) =~= ","@ + quoted_label(
                "saz"@ + "_"@ + "name"@,
                "default:all-unauthenticated"@,
            ));
            reveal_strlit("srv");
            reveal_strlit("saz");
            reveal_strlit("_");
            reveal_strlit("name");
            reveal_strlit("srv_name");
            reveal_strlit("saz_name");
            assert("srv"@ + "_"@ + "name"@ =~= "srv_name"@);
            assert("saz"@ + "_"@ + "name"@ =~= "saz_name"@);
        }
        let r = EndpointLabels::Inbound(i);
        assert(endpoint_labels(r) =~= admin_endpoint_labels(*self));
        r
    }
}

/// A connection admitted to the HTTP stack, with the labels under which its
/// requests are counted.
#[derive(Debug)]
pub struct Admitted {
    pub http: Http,
    pub endpoint: EndpointLabels,
}

/// Runs one accepted connection through the admission stages in order: its
/// target is built from the TLS state and addresses, its transport labels
/// are taken (for every connection, refused or not), the fallback policy is
/// applied to the detection outcome, and an admitted connection gets its
/// endpoint labels.
pub fn accept_connection(tls: ConditionalServerTls, client: String, addr: String, outcome: DetectOutcome) -> (r: (
    TransportKey,
    Result<Admitted, AdmissionError>,
))
    ensures
        r.0.tls.same_as(tls),
        r.0.target_addr@ == addr@,
        r.0.server@ == "default:admin"@,
        r.1 is Ok <==> admission(outcome, Tcp { addr, client, tls }) is Ok,
        r.1 matches Ok(a) ==> admission(outcome, Tcp { addr, client, tls }) == Ok::<
            Http,
            AdmissionError,
        >(a.http) && endpoint_labels(a.endpoint) == admin_endpoint_labels(a.http),
        r.1 matches Err(e) ==> admission(outcome, Tcp { addr, client, tls }) == Err::<
            Http,
            AdmissionError,
        >(e),
{
    let tcp = Tcp::new(tls, client, addr);
    let transport = tcp.transport_key();
    let admitted = match classify(outcome, tcp) {
        Ok(http) => {
            let endpoint = http.endpoint_labels();
            Ok(Admitted { http, endpoint })
        },
        Err(e) => Err(e),
    };
    (transport, admitted)
}

impl<I> TlsParams<I> {
    /// How long TLS detection may wait for a client hello.
    pub fn extract_timeout(&self) -> (r: u64)
        ensures
            r == DETECT_TIMEOUT_MS,
    {
        DETECT_TIMEOUT_MS
    }

    /// The local identity with which TLS may be terminated.
    pub fn extract_identity(&self) -> (r: &Option<I>)
        ensures
            *r == self.identity,
    {
        &self.identity
    }

    /// Pairs the TLS state found by detection with the connection's target.
    pub fn insert_param<T>(&self, tls: ConditionalServerTls, target: T) -> (r: (
        ConditionalServerTls,
        T,
    ))
        ensures
            r == (tls, target),
    {
        (tls, target)
    }
}

} // verus!
