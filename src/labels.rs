//! Observability labels: each label set renders as comma-joined
//! `key="value"` pairs, without a trailing comma.

use crate::text::{decimal, push_decimal, push_quoted, quoted_label};
use crate::tls::{
    push_tls_accept, push_tls_connect, tls_accept_labels, tls_connect_labels,
    ConditionalClientTls, ConditionalServerTls,
};
use vstd::prelude::*;
use vstd::string::*;

verus! {

/// The direction of traffic that a label set describes.
#[derive(Clone, Copy, Debug, PartialEq, Eq, Hash, Structural)]
pub enum Direction {
    In,
    Out,
}

/// Free-form labels, rendered in the order in which they are held.
pub type LabelPairs = Vec<(String, String)>;

pub open spec fn direction_text(d: Direction) -> Seq<char> {
    match d {
        Direction::In => "inbound"@,
        Direction::Out => "outbound"@,
    }
}

pub open spec fn direction_labels(d: Direction) -> Seq<char> {
    quoted_label("direction"@, direction_text(d))
}

/// `prefix_key="value"` for one free-form label.
pub open spec fn prefixed_label(prefix: Seq<char>, pair: (String, String)) -> Seq<char> {
    quoted_label(prefix + "_"@ + pair.0@, pair.1@)
}

/// Each label of `pairs`, in order, rendered with `prefix` and preceded by a comma.
pub open spec fn comma_prefixed(prefix: Seq<char>, pairs: Seq<(String, String)>) -> Seq<char>
    decreases pairs.len(),
{
    if pairs.len() == 0 {
        Seq::empty()
    } else {
        comma_prefixed(prefix, pairs.drop_last()) + ","@ + prefixed_label(prefix, pairs.last())
    }
}

/// `,key="value"` when `labels` holds pre-rendered text, nothing otherwise.
pub open spec fn optional_blob(labels: Option<String>) -> Seq<char> {
    match labels {
        Option::Some(l) => ","@ + l@,
        Option::None => Seq::empty(),
    }
}

/// `authority="a",` when an authority is known, nothing otherwise.
pub open spec fn authority_prefix(authority: Option<String>) -> Seq<char> {
    match authority {
        Option::Some(a) => quoted_label("authority"@, a@) + ","@,
        Option::None => Seq::empty(),
    }
}

impl Direction {
    /// The direction's name.
    pub fn fmt(&self) -> (r: &'static str)
        ensures
            r@ == direction_text(*self),
    {
        match self {
            Direction::In => "inbound",
            Direction::Out => "outbound",
        }
    }

    /// `direction="inbound"` or `direction="outbound"`.
    pub fn fmt_labels(&self) -> (r: String)
        ensures
            r@ == direction_labels(*self),
    {
        let mut out = String::new();
        push_quoted(&mut out, "direction", self.fmt());
        assert(out@ =~= direction_labels(*self));
        out
    }
}

/// Appends each label of `pairs` to `out` as `,prefix_key="value"`.
pub fn push_comma_prefixed(out: &mut String, prefix: &str, pairs: &LabelPairs)
    ensures
        final(out)@ == old(out)@ + comma_prefixed(prefix@, pairs@),
{
    let ghost start = out@;
    let mut i: usize = 0;
    assert(pairs@.take(0) =~= Seq::<(String, String)>::empty());
    assert(out@ =~= start + comma_prefixed(prefix@, pairs@.take(0)));
    while i < pairs.len()
        invariant
            i <= pairs@.len(),
            out@ == start + comma_prefixed(prefix@, pairs@.take(i as int)),
        decreases pairs@.len() - i,
    {
        let ghost before = out@;
        out.append(",");
        out.append(prefix);
        out.append("_");
        push_quoted(out, pairs[i].0.as_str(), pairs[i].1.as_str());
        proof {
            let next = pairs@.take(i + 1);
            assert(next.drop_last() =~= pairs@.take(i as int));
            assert(next.last() == pairs@[i as int]);
            assert(out@ =~= before + ","@ + prefixed_label(prefix@, pairs@[i as int]));
        }
        i = i + 1;
    }
    assert(pairs@.take(i as int) =~= pairs@);
}

/// Renders free-form labels as comma-joined `prefix_key="value"` pairs, in
/// the order given; `None` when there are no labels.
pub fn prefix_labels(prefix: &str, labels: &LabelPairs) -> (r: Option<String>)
    ensures
        labels@.len() == 0 <==> r.is_none(),
        r matches Option::Some(s) ==> ","@ + s@ == comma_prefixed(prefix@, labels@),
{
    if labels.len() == 0 {
        return None;
    }
    let mut out = String::new();
    out.append(prefix);
    out.append("_");
    push_quoted(&mut out, labels[0].0.as_str(), labels[0].1.as_str());
    let mut i: usize = 1;
    proof {
        let one = labels@.take(1);
        assert(one.drop_last() =~= labels@.take(0));
        assert(labels@.take(0) =~= Seq::<(String, String)>::empty());
        assert(one.last() == labels@[0]);
        assert(out@ =~= prefixed_label(prefix@, labels@[0]));
        assert(comma_prefixed(prefix@, one) == comma_prefixed(prefix@, labels@.take(0)) + ","@
            + prefixed_label(prefix@, labels@[0]));
        assert(","@ + out@ =~= comma_prefixed(prefix@, one));
    }
    while i < labels.len()
        invariant
            1 <= i <= labels@.len(),
            ","@ + out@ == comma_prefixed(prefix@, labels@.take(i as int)),
        decreases labels@.len() - i,
    {
        let ghost before = out@;
        out.append(",");
        out.append(prefix);
        out.append("_");
        push_quoted(&mut out, labels[i].0.as_str(), labels[i].1.as_str());
        proof {
            let next = labels@.take(i + 1);
            assert(next.drop_last() =~= labels@.take(i as int));
            assert(next.last() == labels@[i as int]);
            assert(out@ =~= before + ","@ + prefixed_label(prefix@, labels@[i as int]));
            assert(","@ + out@ =~= (","@ + before) + ","@ + prefixed_label(
                prefix@,
                labels@[i as int],
            ));
        }
        i = i + 1;
    }
    assert(labels@.take(i as int) =~= labels@);
    Some(out)
}

/// Policy labels of an inbound endpoint: those of the server and of the
/// authorization that admitted the connection.
#[derive(Clone, Debug, Default)]
pub struct PolicyLabels {
    pub server: LabelPairs,
    pub authz: LabelPairs,
}

/// Labels of an inbound endpoint.
#[derive(Clone, Debug)]
pub struct InboundEndpointLabels {
    pub tls: ConditionalServerTls,
    pub authority: Option<String>,
    pub target_addr: String,
    pub policy: PolicyLabels,
}

/// Labels of an outbound endpoint.
#[derive(Clone, Debug)]
pub struct OutboundEndpointLabels {
    pub server_id: ConditionalClientTls,
    pub authority: Option<String>,
    pub labels: Option<String>,
    pub target_addr: String,
}

/// Labels of an endpoint: exactly one of inbound or outbound.
#[derive(Clone, Debug)]
pub enum EndpointLabels {
    Inbound(InboundEndpointLabels),
    Outbound(OutboundEndpointLabels),
}

/// Labels of the control-plane client.
#[derive(Clone, Debug)]
pub struct ControlLabels {
    pub addr: String,
    pub server_id: ConditionalClientTls,
}

/// Labels of a route: its direction, its logical destination and its
/// pre-rendered route labels.
#[derive(Clone, Debug)]
pub struct RouteLabels {
    pub direction: Direction,
    pub addr: String,
    pub labels: Option<String>,
}

/// Labels that name a middleware stack.
#[derive(Clone, Debug, PartialEq, Eq, Hash)]
pub struct StackLabels {
    pub direction: Direction,
    pub protocol: &'static str,
    pub name: &'static str,
}

/// Whether a response was classified as a success.
#[derive(Clone, Copy, Debug, PartialEq, Eq, Hash, Structural)]
pub enum SuccessOrFailure {
    Success,
    Failure,
}

/// The classification of a response.
#[derive(Clone, Debug)]
pub enum Class {
    Default(SuccessOrFailure),
    Grpc(SuccessOrFailure, u32),
    Stream(SuccessOrFailure, String),
}

pub open spec fn target_addr_labels(addr: Seq<char>) -> Seq<char> {
    quoted_label("target_addr"@, addr)
}

pub open spec fn inbound_labels(l: InboundEndpointLabels) -> Seq<char> {
    authority_prefix(l.authority) + target_addr_labels(l.target_addr@) + ","@ + tls_accept_labels(
        l.tls,
    ) + comma_prefixed("srv"@, l.policy.server@) + comma_prefixed("saz"@, l.policy.authz@)
}

pub open spec fn outbound_labels(l: OutboundEndpointLabels) -> Seq<char> {
    authority_prefix(l.authority) + target_addr_labels(l.target_addr@) + ","@ + tls_connect_labels(
        l.server_id,
    ) + optional_blob(l.labels)
}

pub open spec fn endpoint_labels(l: EndpointLabels) -> Seq<char> {
    match l {
        EndpointLabels::Inbound(i) => direction_labels(Direction::In) + ","@ + inbound_labels(i),
        EndpointLabels::Outbound(o) => direction_labels(Direction::Out) + ","@ + outbound_labels(o),
    }
}

pub open spec fn control_labels(l: ControlLabels) -> Seq<char> {
    quoted_label("addr"@, l.addr@) + ","@ + tls_connect_labels(l.server_id)
}

pub open spec fn route_labels(l: RouteLabels) -> Seq<char> {
    direction_labels(l.direction) + ","@ + quoted_label("dst"@, l.addr@) + optional_blob(l.labels)
}

pub open spec fn stack_labels(l: StackLabels) -> Seq<char> {
    direction_labels(l.direction) + ","@ + quoted_label("protocol"@, l.protocol@) + ","@
        + quoted_label("name"@, l.name@)
}

pub open spec fn success_text(r: SuccessOrFailure) -> Seq<char> {
    match r {
        SuccessOrFailure::Success => "success"@,
        SuccessOrFailure::Failure => "failure"@,
    }
}

pub open spec fn class_labels(c: Class) -> Seq<char> {
    match c {
        Class::Default(r) => quoted_label("classification"@, success_text(r)),
        Class::Grpc(r, status) => quoted_label("classification"@, success_text(r)) + ","@
            + quoted_label("grpc_status"@, decimal(status as nat)),
        Class::Stream(r, error) => quoted_label("classification"@, success_text(r)) + ","@
            + quoted_label("error"@, error@),
    }
}

fn push_authority(out: &mut String, authority: &Option<String>)
    ensures
        final(out)@ == old(out)@ + authority_prefix(*authority),
{
    let ghost start = out@;
    if let Some(a) = authority {
        push_quoted(out, "authority", a.as_str());
        out.append(",");
    }
    assert(out@ =~= start + authority_prefix(*authority));
}

fn push_blob(out: &mut String, labels: &Option<String>)
    ensures
        final(out)@ == old(out)@ + optional_blob(*labels),
{
    let ghost start = out@;
    if let Some(l) = labels {
        out.append(",");
        out.append(l.as_str());
    }
    assert(out@ =~= start + optional_blob(*labels));
}

impl InboundEndpointLabels {
    /// `authority="a",` when an authority is known, then the target address,
    /// the TLS labels, and each server and authorization policy label with
    /// the prefixes `srv_` and `saz_`.
    pub fn fmt_labels(&self) -> (r: String)
        ensures
            r@ == inbound_labels(*self),
    {
        let mut out = String::new();
        push_authority(&mut out, &self.authority);
        push_quoted(&mut out, "target_addr", self.target_addr.as_str());
        out.append(",");
        push_tls_accept(&mut out, &self.tls);
        push_comma_prefixed(&mut out, "srv", &self.policy.server);
        push_comma_prefixed(&mut out, "saz", &self.policy.authz);
        assert(out@ =~= inbound_labels(*self));
        out
    }
}

impl OutboundEndpointLabels {
    /// `authority="a",` when an authority is known, then the target address,
    /// the TLS labels, and the pre-rendered labels if any.
    pub fn fmt_labels(&self) -> (r: String)
        ensures
            r@ == outbound_labels(*self),
    {
        let mut out = String::new();
        push_authority(&mut out, &self.authority);
        push_quoted(&mut out, "target_addr", self.target_addr.as_str());
        out.append(",");
        push_tls_connect(&mut out, &self.server_id);
        push_blob(&mut out, &self.labels);
        assert(out@ =~= outbound_labels(*self));
        out
    }
}

impl From<InboundEndpointLabels> for EndpointLabels {
    fn from(i: InboundEndpointLabels) -> (r: Self) {
        EndpointLabels::Inbound(i)
    }
}

impl vstd::std_specs::convert::FromSpecImpl<InboundEndpointLabels> for EndpointLabels {
    open spec fn obeys_from_spec() -> bool {
        true
    }

    open spec fn from_spec(i: InboundEndpointLabels) -> Self {
        EndpointLabels::Inbound(i)
    }
}

impl From<OutboundEndpointLabels> for EndpointLabels {
    fn from(o: OutboundEndpointLabels) -> (r: Self) {
        EndpointLabels::Outbound(o)
    }
}

impl vstd::std_specs::convert::FromSpecImpl<OutboundEndpointLabels> for EndpointLabels {
    open spec fn obeys_from_spec() -> bool {
        true
    }

    open spec fn from_spec(o: OutboundEndpointLabels) -> Self {
        EndpointLabels::Outbound(o)
    }
}

impl EndpointLabels {
    /// The direction labels, then the labels of the inbound or outbound endpoint.
    pub fn fmt_labels(&self) -> (r: String)
        ensures
            r@ == endpoint_labels(*self),
    {
        let mut out = match self {
            EndpointLabels::Inbound(_) => Direction::In.fmt_labels(),
            EndpointLabels::Outbound(_) => Direction::Out.fmt_labels(),
        };
        out.append(",");
        let inner = match self {
            EndpointLabels::Inbound(i) => i.fmt_labels(),
            EndpointLabels::Outbound(o) => o.fmt_labels(),
        };
        out.append(inner.as_str());
        assert(out@ =~= endpoint_labels(*self));
        out
    }
}

impl ControlLabels {
    pub fn new(addr: String, server_id: ConditionalClientTls) -> (r: Self)
        ensures
            r.addr == addr,
            r.server_id == server_id,
    {
        ControlLabels { addr, server_id }
    }

    /// `addr="a",` then the TLS labels of the control-plane connection.
    pub fn fmt_labels(&self) -> (r: String)
        ensures
            r@ == control_labels(*self),
    {
        let mut out = String::new();
        push_quoted(&mut out, "addr", self.addr.as_str());
        out.append(",");
        push_tls_connect(&mut out, &self.server_id);
        assert(out@ =~= control_labels(*self));
        out
    }
}

impl RouteLabels {
    /// Labels of a route to `addr`; its own labels are rendered once, here,
    /// with the prefix `rt_`.
    pub fn new(direction: Direction, addr: String, route_labels: &LabelPairs) -> (r: Self)
        ensures
            r.direction == direction,
            r.addr == addr,
            route_labels@.len() == 0 <==> r.labels.is_none(),
            r.labels matches Option::Some(s) ==> ","@ + s@ == comma_prefixed("rt"@, route_labels@),
    {
        let labels = prefix_labels("rt", route_labels);
        RouteLabels { direction, addr, labels }
    }

    /// The direction labels, `,dst="addr"`, then the route's own labels if any.
    pub fn fmt_labels(&self) -> (r: String)
        ensures
            r@ == route_labels(*self),
    {
        let mut out = self.direction.fmt_labels();
        out.append(",");
        push_quoted(&mut out, "dst", self.addr.as_str());
        push_blob(&mut out, &self.labels);
        assert(out@ =~= route_labels(*self));
        out
    }
}

impl StackLabels {
    pub fn inbound(protocol: &'static str, name: &'static str) -> (r: Self)
        ensures
            r == (StackLabels { direction: Direction::In, protocol, name }),
    {
        StackLabels { name, protocol, direction: Direction::In }
    }

    pub fn outbound(protocol: &'static str, name: &'static str) -> (r: Self)
        ensures
            r == (StackLabels { direction: Direction::Out, protocol, name }),
    {
        StackLabels { name, protocol, direction: Direction::Out }
    }

    /// The direction labels, then `,protocol="p",name="n"`.
    pub fn fmt_labels(&self) -> (r: String)
        ensures
            r@ == stack_labels(*self),
    {
        let mut out = self.direction.fmt_labels();
        out.append(",");
        push_quoted(&mut out, "protocol", self.protocol);
        out.append(",");
        push_quoted(&mut out, "name", self.name);
        assert(out@ =~= stack_labels(*self));
        out
    }
}

impl SuccessOrFailure {
    pub fn fmt(&self) -> (r: &'static str)
        ensures
            r@ == success_text(*self),
    {
        match self {
            SuccessOrFailure::Success => "success",
            SuccessOrFailure::Failure => "failure",
        }
    }
}

impl Class {
    /// `classification="..."`, followed by the gRPC status or the stream
    /// error where the class carries one.
    pub fn fmt_labels(&self) -> (r: String)
        ensures
            r@ == class_labels(*self),
    {
        let mut out = String::new();
        match self {
            Class::Default(r) => {
                push_quoted(&mut out, "classification", r.fmt());
            },
            Class::Grpc(r, status) => {
                push_quoted(&mut out, "classification", r.fmt());
                out.append(",grpc_status=\"");
                push_decimal(&mut out, *status);
                out.append("\"");
                proof {
                    reveal_strlit(",grpc_status=\"");
                    reveal_strlit(",");
                    reveal_strlit("grpc_status");
                    reveal_strlit("=\"");
                }
            },
            Class::Stream(r, error) => {
                push_quoted(&mut out, "classification", r.fmt());
                out.append(",");
                push_quoted(&mut out, "error", error.as_str());
            },
        }
        assert(out@ =~= class_labels(*self));
        out
    }
}

} // verus!
