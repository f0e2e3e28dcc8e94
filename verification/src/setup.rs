//! How each socket is prepared, and which error a failure at each step becomes.
//!
//! A [`SocketPlan`] names the kind of socket to create and the steps to perform on it in
//! order. The application performs them; when one fails, the matching `*_error` function
//! tells which [`EngineError`] the engine reports.

use vstd::prelude::*;
use crate::endpoints::{
    events_url, messages_url, plugin_sync_url, sync_port, sync_prefix, sync_url, tcp_bind_url,
    tcp_url, SocketData,
};
use crate::errors::EngineError;
use crate::text::{signed_decimal, uuid_text};

verus! {

/// The messaging patterns the engine uses.
#[derive(Debug, Clone, Copy, PartialEq, Eq)]
pub enum SocketKind {
    /// Publisher.
    Pub,
    /// Subscriber.
    Sub,
    /// Requester (sends, then waits for a reply).
    Req,
    /// Replier (waits for a request, then replies).
    Rep,
}

/// One step in preparing a socket.
#[derive(Debug, Clone, PartialEq, Eq)]
pub enum SocketStep {
    /// Bind to an endpoint.
    Bind(String),
    /// Connect to an endpoint.
    Connect(String),
    /// Subscribe to every message that starts with these bytes.
    Subscribe(Vec<u8>),
}

/// A socket to create and the steps to perform on it, in order.
#[derive(Debug, Clone, PartialEq, Eq)]
pub struct SocketPlan {
    pub kind: SocketKind,
    pub steps: Vec<SocketStep>,
}

/// Where preparing a socket failed, with the error number reported.
#[derive(Debug, Clone, Copy, PartialEq, Eq)]
pub enum SetupFailure {
    /// The socket could not be created.
    Create(i32),
    /// The step with this index failed.
    Step(usize, i32),
}

/// Whether `step` binds to `url`.
pub open spec fn binds(step: SocketStep, url: Seq<char>) -> bool {
    step matches SocketStep::Bind(u) && u@ == url
}

/// Whether `step` connects to `url`.
pub open spec fn connects(step: SocketStep, url: Seq<char>) -> bool {
    step matches SocketStep::Connect(u) && u@ == url
}

/// Whether `step` subscribes with `filter`.
pub open spec fn subscribes(step: SocketStep, filter: Seq<u8>) -> bool {
    step matches SocketStep::Subscribe(f) && f@ == filter
}

/// Whether `failure` names a step that `plan` has.
pub open spec fn failure_in(failure: SetupFailure, steps: nat) -> bool {
    failure matches SetupFailure::Step(k, _) ==> k < steps
}

/// The sockets a plugin's thread prepares.
#[derive(Debug, Clone, Copy, PartialEq, Eq)]
pub enum PluginSocket {
    /// Where the plugin publishes events.
    Publish,
    /// Where the plugin receives the events it subscribed to.
    Subscribe,
    /// Where the plugin announces it is ready and waits for the engine.
    Sync,
    /// Where an external plugin process talks to the engine over TCP.
    External,
}

/// The plan of one of the sockets of plugin `id`; `tcp_port` is the external plugin's port.
pub open spec fn plugin_plan_spec(role: PluginSocket, id: u128, tcp_port: i32, p: SocketPlan) -> bool {
    &&& p.steps@.len() == 1
    &&& match role {
        PluginSocket::Publish => p.kind == SocketKind::Pub && connects(p.steps@[0], messages_url()),
        PluginSocket::Subscribe => p.kind == SocketKind::Sub && connects(p.steps@[0], events_url()),
        PluginSocket::Sync => p.kind == SocketKind::Req && connects(
            p.steps@[0],
            sync_url(sync_prefix(), id),
        ),
        PluginSocket::External => p.kind == SocketKind::Rep && binds(p.steps@[0], tcp_url(tcp_port)),
    }
}

/// The plan of one of the sockets a plugin's thread prepares before it starts: the publish
/// and subscribe sockets connect to the engine's in-process endpoints, the sync socket to the
/// plugin's own sync endpoint, and an external plugin's socket binds its TCP port. The
/// subscriptions are set afterwards, one per event type (see [`plugin_subscription_error`]).
pub fn plugin_socket_plan(role: PluginSocket, id: u128, tcp_port: i32) -> (p: SocketPlan)
    ensures
        plugin_plan_spec(role, id, tcp_port, p),
        role == PluginSocket::External ==> (p.steps@[0] matches SocketStep::Bind(u) && u@
            == "tcp://*:"@ + signed_decimal(tcp_port as int)),
        role == PluginSocket::Sync ==> (p.steps@[0] matches SocketStep::Connect(u) && u@
            == "inproc://sync-"@ + uuid_text(id)),
{
    let endpoints = SocketData::default();
    let mut steps: Vec<SocketStep> = Vec::new();
    let kind = match role {
        PluginSocket::Publish => {
            steps.push(SocketStep::Connect(endpoints.pub_socket_inproc_url));
            SocketKind::Pub
        },
        PluginSocket::Subscribe => {
            steps.push(SocketStep::Connect(endpoints.sub_socket_inproc_url));
            SocketKind::Sub
        },
        PluginSocket::Sync => {
            steps.push(
                SocketStep::Connect(plugin_sync_url(endpoints.sync_inproc_url.as_str(), id)),
            );
            SocketKind::Req
        },
        PluginSocket::External => {
            steps.push(SocketStep::Bind(tcp_bind_url(tcp_port)));
            SocketKind::Rep
        },
    };
    proof {
        lemma_sync_endpoint_text(id);
    }
    SocketPlan { kind, steps }
}

/// An external plugin's socket is a replier that binds every interface on the plugin's own
/// TCP port, written in decimal; the plugin's id plays no part in it, so external plugins
/// with different ports bind different endpoints.
pub proof fn lemma_external_plan_binds_its_port(id: u128, tcp_port: i32, p: SocketPlan)
    requires
        plugin_plan_spec(PluginSocket::External, id, tcp_port, p),
    ensures
        p.kind == SocketKind::Rep,
        p.steps@.len() == 1,
        p.steps@[0] matches SocketStep::Bind(u) && u@ == "tcp://*:"@ + signed_decimal(
            tcp_port as int,
        ),
        forall|other: u128| plugin_plan_spec(PluginSocket::External, other, tcp_port, p),
{
}

/// External plugins on different ports get plans that bind different endpoints.
pub proof fn lemma_external_plans_distinct(
    id1: u128,
    port1: i32,
    p1: SocketPlan,
    id2: u128,
    port2: i32,
    p2: SocketPlan,
)
    requires
        plugin_plan_spec(PluginSocket::External, id1, port1, p1),
        plugin_plan_spec(PluginSocket::External, id2, port2, p2),
        port1 != port2,
    ensures
        p1.steps@[0] matches SocketStep::Bind(u) && p2.steps@[0] matches SocketStep::Bind(v)
            && u@ != v@,
{
    crate::text::lemma_i32_text_round_trip(port1);
    crate::text::lemma_i32_text_round_trip(port2);
    let prefix = "tcp://*:"@;
    let a = prefix + signed_decimal(port1 as int);
    let b = prefix + signed_decimal(port2 as int);
    if a == b {
        assert(a.skip(prefix.len() as int) =~= signed_decimal(port1 as int));
        assert(b.skip(prefix.len() as int) =~= signed_decimal(port2 as int));
    }
}

/// A plugin's publish socket publishes into `inproc://messages`, its subscribe socket
/// listens on `inproc://events`, and its sync socket connects to `inproc://sync-` followed
/// by the plugin's id text, an endpoint of its own.
pub proof fn lemma_plugin_plans_endpoints(id: u128, tcp_port: i32, pp: SocketPlan, sp: SocketPlan, yp: SocketPlan)
    requires
        plugin_plan_spec(PluginSocket::Publish, id, tcp_port, pp),
        plugin_plan_spec(PluginSocket::Subscribe, id, tcp_port, sp),
        plugin_plan_spec(PluginSocket::Sync, id, tcp_port, yp),
    ensures
        pp.kind == SocketKind::Pub && pp.steps@.len() == 1,
        pp.steps@[0] matches SocketStep::Connect(u) && u@ == "inproc://messages"@,
        sp.kind == SocketKind::Sub && sp.steps@.len() == 1,
        sp.steps@[0] matches SocketStep::Connect(u) && u@ == "inproc://events"@,
        yp.kind == SocketKind::Req && yp.steps@.len() == 1,
        yp.steps@[0] matches SocketStep::Connect(u) && u@ == "inproc://sync-"@ + uuid_text(id),
{
    lemma_sync_endpoint_text(id);
}

/// The sync endpoint of plugin `id` is `inproc://sync-` followed by the id's text.
proof fn lemma_sync_endpoint_text(id: u128)
    ensures
        sync_url(sync_prefix(), id) == "inproc://sync-"@ + uuid_text(id),
{
    reveal_strlit("inproc://sync");
    reveal_strlit("-");
    reveal_strlit("inproc://sync-");
    assert("inproc://sync"@ + "-"@ =~= "inproc://sync-"@);
    assert(sync_url(sync_prefix(), id) =~= "inproc://sync-"@ + uuid_text(id));
}

/// The error reported when preparing a socket of plugin `id` fails: the publish socket
/// reports a publish-socket error; the subscribe socket a subscribe-socket error; the sync
/// socket a sync-socket error with the sync port; an external socket an external-socket
/// error with the error number.
pub fn plugin_socket_error(role: PluginSocket, id: u128, failure: SetupFailure) -> (e: EngineError)
    ensures
        e == match role {
            PluginSocket::Publish => EngineError::PluginPubSocketError(id),
            PluginSocket::Subscribe => EngineError::PluginSubSocketError(id),
            PluginSocket::Sync => EngineError::PluginSyncSocketError(id, sync_port()),
            PluginSocket::External => match failure {
                SetupFailure::Create(c) => EngineError::PluginExternalSocketError(id, c),
                SetupFailure::Step(_, c) => EngineError::PluginExternalSocketError(id, c),
            },
        },
{
    match role {
        PluginSocket::Publish => EngineError::PluginPubSocketError(id),
        PluginSocket::Subscribe => EngineError::PluginSubSocketError(id),
        PluginSocket::Sync => EngineError::PluginSyncSocketError(id, 5000),
        PluginSocket::External => match failure {
            SetupFailure::Create(c) => EngineError::PluginExternalSocketError(id, c),
            SetupFailure::Step(_, c) => EngineError::PluginExternalSocketError(id, c),
        },
    }
}

/// The error reported when the filter of one of a plugin's event types cannot be computed.
pub fn subscription_filter_error() -> (e: EngineError)
    ensures
        e == EngineError::EngineSetSubFilterError(),
{
    EngineError::EngineSetSubFilterError()
}

/// The error reported when plugin `id` cannot subscribe to the event type `event_name`.
pub fn plugin_subscription_error(event_name: String, id: u128) -> (e: EngineError)
    ensures
        e matches EngineError::PluginSubscriptionError(n, i) && n@ == event_name@ && i == id,
{
    EngineError::PluginSubscriptionError(event_name, id)
}

} // verus!
