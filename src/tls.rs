//! Conditional TLS states of accepted (server side) and initiated (client
//! side) connections, and their `tls="..."` label renderings.

use crate::text::{push_quoted, quoted_label};
use vstd::prelude::*;
use vstd::string::*;

verus! {

/// Why an accepted connection carries no terminated TLS.
#[derive(Clone, Copy, Debug, PartialEq, Eq, Structural)]
pub enum NoServerTls {
    Disabled,
    Loopback,
    PortSkipped,
    NoClientHello,
}

/// The TLS state of an accepted connection: exactly one of plaintext,
/// established mutual TLS, or TLS passed through with only its SNI seen.
#[derive(Clone, Debug)]
pub enum ConditionalServerTls {
    NoTls(NoServerTls),
    Established { client_id: Option<String> },
    Passthru { sni: String },
}

/// Why an initiated connection carries no TLS.
#[derive(Clone, Copy, Debug, PartialEq, Eq, Structural)]
pub enum NoClientTls {
    Disabled,
    Loopback,
    NotProvidedByServiceDiscovery,
    IngressNonHttp,
    IngressWithoutOverride,
}

/// The TLS state of an initiated connection.
#[derive(Clone, Debug)]
pub enum ConditionalClientTls {
    NoTls(NoClientTls),
    Tls { server_id: String },
}

pub open spec fn no_server_tls_text(r: NoServerTls) -> Seq<char> {
    match r {
        NoServerTls::Disabled => "disabled"@,
        NoServerTls::Loopback => "loopback"@,
        NoServerTls::PortSkipped => "port_skipped"@,
        NoServerTls::NoClientHello => "no_tls_from_remote"@,
    }
}

pub open spec fn no_client_tls_text(r: NoClientTls) -> Seq<char> {
    match r {
        NoClientTls::Disabled => "disabled"@,
        NoClientTls::Loopback => "loopback"@,
        NoClientTls::NotProvidedByServiceDiscovery => "not_provided_by_service_discovery"@,
        NoClientTls::IngressNonHttp => "ingress_non_http"@,
        NoClientTls::IngressWithoutOverride => "ingress_without_override"@,
    }
}

/// Labels of an accepted connection's TLS state.
pub open spec fn tls_accept_labels(t: ConditionalServerTls) -> Seq<char> {
    match t {
        ConditionalServerTls::NoTls(NoServerTls::Disabled) => quoted_label("tls"@, "disabled"@),
        ConditionalServerTls::NoTls(r) => quoted_label("tls"@, "no_identity"@) + ","@
            + quoted_label("no_tls_reason"@, no_server_tls_text(r)),
        ConditionalServerTls::Established { client_id } => quoted_label("tls"@, "true"@) + ","@
            + quoted_label(
            "client_id"@,
            match client_id {
                Option::Some(id) => id@,
                Option::None => Seq::empty(),
            },
        ),
        ConditionalServerTls::Passthru { sni } => quoted_label("tls"@, "opaque"@) + ","@
            + quoted_label("sni"@, sni@),
    }
}

/// Labels of an initiated connection's TLS state.
pub open spec fn tls_connect_labels(t: ConditionalClientTls) -> Seq<char> {
    match t {
        ConditionalClientTls::NoTls(NoClientTls::Disabled) => quoted_label("tls"@, "disabled"@),
        ConditionalClientTls::NoTls(r) => quoted_label("tls"@, "no_identity"@) + ","@
            + quoted_label("no_tls_reason"@, no_client_tls_text(r)),
        ConditionalClientTls::Tls { server_id } => quoted_label("tls"@, "true"@) + ","@
            + quoted_label("server_id"@, server_id@),
    }
}

impl NoServerTls {
    pub fn as_str(&self) -> (r: &'static str)
        ensures
            r@ == no_server_tls_text(*self),
    {
        match self {
            NoServerTls::Disabled => "disabled",
            NoServerTls::Loopback => "loopback",
            NoServerTls::PortSkipped => "port_skipped",
            NoServerTls::NoClientHello => "no_tls_from_remote",
        }
    }
}

impl NoClientTls {
    pub fn as_str(&self) -> (r: &'static str)
        ensures
            r@ == no_client_tls_text(*self),
    {
        match self {
            NoClientTls::Disabled => "disabled",
            NoClientTls::Loopback => "loopback",
            NoClientTls::NotProvidedByServiceDiscovery => "not_provided_by_service_discovery",
            NoClientTls::IngressNonHttp => "ingress_non_http",
            NoClientTls::IngressWithoutOverride => "ingress_without_override",
        }
    }
}

/// Appends the labels of an accepted connection's TLS state to `out`.
pub fn push_tls_accept(out: &mut String, t: &ConditionalServerTls)
    ensures
        final(out)@ == old(out)@ + tls_accept_labels(*t),
{
    let ghost start = out@;
    match t {
        ConditionalServerTls::NoTls(NoServerTls::Disabled) => {
            push_quoted(out, "tls", "disabled");
        },
        ConditionalServerTls::NoTls(r) => {
            push_quoted(out, "tls", "no_identity");
            out.append(",");
            push_quoted(out, "no_tls_reason", r.as_str());
        },
        ConditionalServerTls::Established { client_id } => {
            push_quoted(out, "tls", "true");
            out.append(",");
            match client_id {
                Option::Some(id) => push_quoted(out, "client_id", id.as_str()),
                Option::None => push_quoted(out, "client_id", ""),
            }
            proof {
                if client_id.is_none() {
                    reveal_strlit("");
                }
            }
        },
        ConditionalServerTls::Passthru { sni } => {
            push_quoted(out, "tls", "opaque");
            out.append(",");
            push_quoted(out, "sni", sni.as_str());
        },
    }
    assert(out@ =~= start + tls_accept_labels(*t));
}

/// Appends the labels of an initiated connection's TLS state to `out`.
pub fn push_tls_connect(out: &mut String, t: &ConditionalClientTls)
    ensures
        final(out)@ == old(out)@ + tls_connect_labels(*t),
{
    let ghost start = out@;
    match t {
        ConditionalClientTls::NoTls(NoClientTls::Disabled) => {
            push_quoted(out, "tls", "disabled");
        },
        ConditionalClientTls::NoTls(r) => {
            push_quoted(out, "tls", "no_identity");
            out.append(",");
            push_quoted(out, "no_tls_reason", r.as_str());
        },
        ConditionalClientTls::Tls { server_id } => {
            push_quoted(out, "tls", "true");
            out.append(",");
            push_quoted(out, "server_id", server_id.as_str());
        },
    }
    assert(out@ =~= start + tls_connect_labels(*t));
}

/// The text of an optional string; empty when absent.
pub open spec fn optional_text(s: Option<String>) -> Seq<char> {
    match s {
        Option::Some(t) => t@,
        Option::None => Seq::empty(),
    }
}

impl ConditionalServerTls {
    /// Both states are the same variant, holding the same text.
    pub open spec fn same_as(self, other: Self) -> bool {
        match (self, other) {
            (ConditionalServerTls::NoTls(a), ConditionalServerTls::NoTls(b)) => a == b,
            (
                ConditionalServerTls::Established { client_id: a },
                ConditionalServerTls::Established { client_id: b },
            ) => a.is_some() == b.is_some() && optional_text(a) == optional_text(b),
            (ConditionalServerTls::Passthru { sni: a }, ConditionalServerTls::Passthru { sni: b }) => a@
                == b@,
            _ => false,
        }
    }

    /// A copy of this state.
    pub fn duplicate(&self) -> (r: Self)
        ensures
            r.same_as(*self),
            tls_accept_labels(r) == tls_accept_labels(*self),
    {
        match self {
            ConditionalServerTls::NoTls(reason) => ConditionalServerTls::NoTls(*reason),
            ConditionalServerTls::Established { client_id } => {
                let client_id = match client_id {
                    Option::Some(id) => Option::Some(id.clone()),
                    Option::None => Option::None,
                };
                ConditionalServerTls::Established { client_id }
            },
            ConditionalServerTls::Passthru { sni } => ConditionalServerTls::Passthru {
                sni: sni.clone(),
            },
        }
    }
}

} // verus!
