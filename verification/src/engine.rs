//! The application object: its configuration, its registered plugins, and the two sockets
//! through which the engine relays every event.

use vstd::prelude::*;
use crate::endpoints::{events_url, messages_url, tcp_bind_url, tcp_url, SocketData};
use crate::errors::EngineError;
use crate::setup::{binds, failure_in, subscribes, SetupFailure, SocketKind, SocketPlan, SocketStep};
use crate::text::{i32_to_text, signed_decimal};

verus! {

/// Configuration for the application: the TCP ports on which the engine accepts events from
/// plugins (`publish_port`) and delivers events to them (`subscribe_port`).
#[derive(Debug, Clone, Copy, PartialEq, Eq)]
pub struct AppConfig {
    pub publish_port: i32,
    pub subscribe_port: i32,
}

/// The application: its configuration and the plugins registered with it, internal ones
/// (`P`) and external ones (`E`), each list in the order of registration.
pub struct App<P, E> {
    pub plugins: Vec<P>,
    pub external_plugins: Vec<E>,
    pub app_config: AppConfig,
}

impl<P, E> Default for App<P, E> {
    /// An application with no plugins on the ports 5559 (publish) and 5560 (subscribe).
    fn default() -> (a: Self)
        ensures
            a.plugins@.len() == 0,
            a.external_plugins@.len() == 0,
            a.app_config == (AppConfig { publish_port: 5559, subscribe_port: 5560 }),
    {
        App {
            plugins: Vec::new(),
            external_plugins: Vec::new(),
            app_config: AppConfig { publish_port: 5559, subscribe_port: 5560 },
        }
    }
}

/// The plan of the engine's outgoing socket, through which plugins receive events.
pub open spec fn outgoing_plan_spec(config: AppConfig, p: SocketPlan) -> bool {
    &&& p.kind == SocketKind::Pub
    &&& p.steps@.len() == 2
    &&& binds(p.steps@[0], tcp_url(config.subscribe_port))
    &&& binds(p.steps@[1], events_url())
}

/// The plan of the engine's incoming socket, on which plugins publish events.
pub open spec fn incoming_plan_spec(config: AppConfig, p: SocketPlan) -> bool {
    &&& p.kind == SocketKind::Sub
    &&& p.steps@.len() == 3
    &&& binds(p.steps@[0], tcp_url(config.publish_port))
    &&& binds(p.steps@[1], messages_url())
    &&& subscribes(p.steps@[2], Seq::empty())
}

impl<P, E> App<P, E> {
    /// An application with no plugins on the given ports.
    pub fn new(publish_port: i32, subscribe_port: i32) -> (a: Self)
        ensures
            a.plugins@.len() == 0,
            a.external_plugins@.len() == 0,
            a.app_config == (AppConfig { publish_port, subscribe_port }),
    {
        let app_config = AppConfig { publish_port, subscribe_port };
        App { app_config, ..Default::default() }
    }

    /// Adds a new plugin to the app, after those already registered.
    pub fn register_plugin(self, plugin: P) -> (a: Self)
        ensures
            a.plugins@ == self.plugins@.push(plugin),
            a.external_plugins@ == self.external_plugins@,
            a.app_config == self.app_config,
    {
        let mut a = self;
        a.plugins.push(plugin);
        a
    }

    /// Adds a new external plugin to the app, after those already registered.
    pub fn register_external_plugin(self, plugin: E) -> (a: Self)
        ensures
            a.plugins@ == self.plugins@,
            a.external_plugins@ == self.external_plugins@.push(plugin),
            a.app_config == self.app_config,
    {
        let mut a = self;
        a.external_plugins.push(plugin);
        a
    }

    /// The engine's outgoing socket: a publisher bound to the subscribe port on every
    /// interface, then to the in-process endpoint where internal plugins receive.
    pub fn outgoing_socket_plan(&self) -> (p: SocketPlan)
        ensures
            outgoing_plan_spec(self.app_config, p),
            p.steps@[0] matches SocketStep::Bind(u) && u@ == "tcp://*:"@ + signed_decimal(
                self.app_config.subscribe_port as int,
            ),
    {
        let endpoints = SocketData::default();
        let mut steps: Vec<SocketStep> = Vec::new();
        steps.push(SocketStep::Bind(tcp_bind_url(self.app_config.subscribe_port)));
        steps.push(SocketStep::Bind(endpoints.sub_socket_inproc_url));
        SocketPlan { kind: SocketKind::Pub, steps }
    }

    /// The error reported when preparing the outgoing socket fails.
    pub fn outgoing_socket_error(&self, failure: SetupFailure) -> (e: EngineError)
        requires
            failure_in(failure, 2),
        ensures
            match failure {
                SetupFailure::Create(c) => e == EngineError::SubSocketCreateError(c),
                SetupFailure::Step(0, c) => e matches EngineError::SubSocketTCPBindError(port, code)
                    && port@ == signed_decimal(self.app_config.subscribe_port as int) && code == c,
                SetupFailure::Step(_, _) => e matches EngineError::SubSocketInProcBindError(url)
                    && url@ == events_url(),
            },
    {
        match failure {
            SetupFailure::Create(c) => EngineError::SubSocketCreateError(c),
            SetupFailure::Step(0, c) => EngineError::SubSocketTCPBindError(
                i32_to_text(self.app_config.subscribe_port),
                c,
            ),
            SetupFailure::Step(_, _) => {
                let endpoints = SocketData::default();
                EngineError::SubSocketInProcBindError(endpoints.sub_socket_inproc_url)
            },
        }
    }

    /// The engine's incoming socket: a subscriber bound to the publish port on every
    /// interface, then to the in-process endpoint where internal plugins publish, subscribed
    /// to every event.
    pub fn incoming_socket_plan(&self) -> (p: SocketPlan)
        ensures
            incoming_plan_spec(self.app_config, p),
            p.steps@[0] matches SocketStep::Bind(u) && u@ == "tcp://*:"@ + signed_decimal(
                self.app_config.publish_port as int,
            ),
    {
        let endpoints = SocketData::default();
        let mut steps: Vec<SocketStep> = Vec::new();
        steps.push(SocketStep::Bind(tcp_bind_url(self.app_config.publish_port)));
        steps.push(SocketStep::Bind(endpoints.pub_socket_inproc_url));
        steps.push(SocketStep::Subscribe(Vec::new()));
        SocketPlan { kind: SocketKind::Sub, steps }
    }

    /// The error reported when preparing the incoming socket fails: a failed TCP bind names
    /// the publish port.
    pub fn incoming_socket_error(&self, failure: SetupFailure) -> (e: EngineError)
        requires
            failure_in(failure, 3),
        ensures
            match failure {
                SetupFailure::Create(c) => e == EngineError::SubSocketCreateError(c),
                SetupFailure::Step(0, _) => e matches EngineError::PubSocketTCPBindError(port)
                    && port@ == signed_decimal(self.app_config.publish_port as int),
                SetupFailure::Step(1, _) => e matches EngineError::PubSocketInProcBindError(url)
                    && url@ == messages_url(),
                SetupFailure::Step(_, c) => e == EngineError::EngineSetSubFilterAllError(c),
            },
    {
        match failure {
            SetupFailure::Create(c) => EngineError::SubSocketCreateError(c),
            SetupFailure::Step(0, _) => EngineError::PubSocketTCPBindError(
                i32_to_text(self.app_config.publish_port),
            ),
            SetupFailure::Step(1, _) => {
                let endpoints = SocketData::default();
                EngineError::PubSocketInProcBindError(endpoints.pub_socket_inproc_url)
            },
            SetupFailure::Step(_, c) => EngineError::EngineSetSubFilterAllError(c),
        }
    }
}

/// The outgoing socket is a publisher that binds every interface on the subscribe port,
/// written in decimal, and then the in-process endpoint `inproc://events`; the publish port
/// plays no part in it.
pub proof fn lemma_outgoing_plan_binds_subscribe_port(config: AppConfig, p: SocketPlan)
    requires
        outgoing_plan_spec(config, p),
    ensures
        p.kind == SocketKind::Pub,
        p.steps@.len() == 2,
        p.steps@[0] matches SocketStep::Bind(u) && u@ == "tcp://*:"@ + signed_decimal(
            config.subscribe_port as int,
        ),
        p.steps@[1] matches SocketStep::Bind(u) && u@ == "inproc://events"@,
        forall|publish_port: i32|
            outgoing_plan_spec(AppConfig { publish_port, subscribe_port: config.subscribe_port }, p),
{
}

/// The incoming socket is a subscriber that binds every interface on the publish port,
/// written in decimal, then the in-process endpoint `inproc://messages`, then subscribes to
/// every message; the subscribe port plays no part in it.
pub proof fn lemma_incoming_plan_binds_publish_port(config: AppConfig, p: SocketPlan)
    requires
        incoming_plan_spec(config, p),
    ensures
        p.kind == SocketKind::Sub,
        p.steps@.len() == 3,
        p.steps@[0] matches SocketStep::Bind(u) && u@ == "tcp://*:"@ + signed_decimal(
            config.publish_port as int,
        ),
        p.steps@[1] matches SocketStep::Bind(u) && u@ == "inproc://messages"@,
        p.steps@[2] matches SocketStep::Subscribe(f) && f@.len() == 0,
        forall|subscribe_port: i32|
            incoming_plan_spec(AppConfig { publish_port: config.publish_port, subscribe_port }, p),
{
}

/// The two relay sockets bind different TCP endpoints whenever the two ports differ.
pub proof fn lemma_relay_sockets_bind_distinct_ports(config: AppConfig, out: SocketPlan, inc: SocketPlan)
    requires
        outgoing_plan_spec(config, out),
        incoming_plan_spec(config, inc),
        config.publish_port != config.subscribe_port,
    ensures
        out.steps@[0] matches SocketStep::Bind(u) && inc.steps@[0] matches SocketStep::Bind(v)
            && u@ != v@,
{
    crate::text::lemma_i32_text_round_trip(config.publish_port);
    crate::text::lemma_i32_text_round_trip(config.subscribe_port);
    let prefix = "tcp://*:"@;
    let a = prefix + signed_decimal(config.subscribe_port as int);
    let b = prefix + signed_decimal(config.publish_port as int);
    if a == b {
        assert(a.skip(prefix.len() as int) =~= signed_decimal(config.subscribe_port as int));
        assert(b.skip(prefix.len() as int) =~= signed_decimal(config.publish_port as int));
    }
}

} // verus!
