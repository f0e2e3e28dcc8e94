use event_engine::endpoints::{plugin_sync_url, tcp_bind_url, SocketData};
use event_engine::engine::{App, AppConfig};
use event_engine::errors::EngineError;
use event_engine::setup::{
    plugin_socket_error, plugin_socket_plan, plugin_subscription_error, subscription_filter_error,
    PluginSocket, SetupFailure, SocketKind, SocketStep,
};

#[test]
fn standard_endpoints() {
    let d = SocketData::default();
    assert_eq!(d.pub_socket_inproc_url, "inproc://messages");
    assert_eq!(d.sub_socket_inproc_url, "inproc://events");
    assert_eq!(d.sync_socket_port, 5000);
    assert_eq!(d.sync_inproc_url, "inproc://sync");
}

#[test]
fn endpoint_urls() {
    assert_eq!(tcp_bind_url(5560), "tcp://*:5560");
    assert_eq!(tcp_bind_url(-1), "tcp://*:-1");
    assert_eq!(
        plugin_sync_url("inproc://sync", 0x67e55044_10b1_426f_9247_bb680e5fe0c8),
        "inproc://sync-67e55044-10b1-426f-9247-bb680e5fe0c8"
    );
}

#[test]
fn new_and_default_apps() {
    let a: App<u8, u16> = App::new(1, 2);
    assert!(a.plugins.is_empty() && a.external_plugins.is_empty());
    assert_eq!(a.app_config, AppConfig { publish_port: 1, subscribe_port: 2 });
    let d: App<u8, u16> = App::default();
    assert_eq!(d.app_config, AppConfig { publish_port: 5559, subscribe_port: 5560 });
    assert!(d.plugins.is_empty() && d.external_plugins.is_empty());
}

#[test]
fn registration_keeps_order() {
    let a: App<&str, u32> = App::new(5559, 5560);
    let a = a
        .register_plugin("producer")
        .register_external_plugin(7)
        .register_plugin("counter")
        .register_external_plugin(8);
    assert_eq!(a.plugins, vec!["producer", "counter"]);
    assert_eq!(a.external_plugins, vec![7, 8]);
    assert_eq!(a.app_config, AppConfig { publish_port: 5559, subscribe_port: 5560 });
}

#[test]
fn engine_socket_plans() {
    let a: App<(), ()> = App::new(5559, 5560);
    let out = a.outgoing_socket_plan();
    assert_eq!(out.kind, SocketKind::Pub);
    assert_eq!(
        out.steps,
        vec![
            SocketStep::Bind("tcp://*:5560".to_string()),
            SocketStep::Bind("inproc://events".to_string())
        ]
    );
    let inc = a.incoming_socket_plan();
    assert_eq!(inc.kind, SocketKind::Sub);
    assert_eq!(
        inc.steps,
        vec![
            SocketStep::Bind("tcp://*:5559".to_string()),
            SocketStep::Bind("inproc://messages".to_string()),
            SocketStep::Subscribe(vec![])
        ]
    );
}

#[test]
fn engine_socket_errors() {
    let a: App<(), ()> = App::new(5559, 5560);
    assert_eq!(a.outgoing_socket_error(SetupFailure::Create(3)), EngineError::SubSocketCreateError(3));
    assert_eq!(
        a.outgoing_socket_error(SetupFailure::Step(0, 98)),
        EngineError::SubSocketTCPBindError("5560".to_string(), 98)
    );
    assert_eq!(
        a.outgoing_socket_error(SetupFailure::Step(1, 98)),
        EngineError::SubSocketInProcBindError("inproc://events".to_string())
    );
    assert_eq!(a.incoming_socket_error(SetupFailure::Create(4)), EngineError::SubSocketCreateError(4));
    assert_eq!(
        a.incoming_socket_error(SetupFailure::Step(0, 98)),
        EngineError::PubSocketTCPBindError("5559".to_string())
    );
    assert_eq!(
        a.incoming_socket_error(SetupFailure::Step(1, 98)),
        EngineError::PubSocketInProcBindError("inproc://messages".to_string())
    );
    assert_eq!(
        a.incoming_socket_error(SetupFailure::Step(2, 22)),
        EngineError::EngineSetSubFilterAllError(22)
    );
}

#[test]
fn plugin_socket_plans() {
    let id = 0x67e55044_10b1_426f_9247_bb680e5fe0c8u128;
    let p = plugin_socket_plan(PluginSocket::Publish, id, 0);
    assert_eq!(p.kind, SocketKind::Pub);
    assert_eq!(p.steps, vec![SocketStep::Connect("inproc://messages".to_string())]);
    let s = plugin_socket_plan(PluginSocket::Subscribe, id, 0);
    assert_eq!(s.kind, SocketKind::Sub);
    assert_eq!(s.steps, vec![SocketStep::Connect("inproc://events".to_string())]);
    let y = plugin_socket_plan(PluginSocket::Sync, id, 0);
    assert_eq!(y.kind, SocketKind::Req);
    assert_eq!(
        y.steps,
        vec![SocketStep::Connect("inproc://sync-67e55044-10b1-426f-9247-bb680e5fe0c8".to_string())]
    );
    let e = plugin_socket_plan(PluginSocket::External, id, 6000);
    assert_eq!(e.kind, SocketKind::Rep);
    assert_eq!(e.steps, vec![SocketStep::Bind("tcp://*:6000".to_string())]);
}

#[test]
fn plugin_socket_errors() {
    let id = 42u128;
    assert_eq!(plugin_socket_error(PluginSocket::Publish, id, SetupFailure::Create(1)), EngineError::PluginPubSocketError(id));
    assert_eq!(plugin_socket_error(PluginSocket::Publish, id, SetupFailure::Step(0, 1)), EngineError::PluginPubSocketError(id));
    assert_eq!(plugin_socket_error(PluginSocket::Subscribe, id, SetupFailure::Create(1)), EngineError::PluginSubSocketError(id));
    assert_eq!(plugin_socket_error(PluginSocket::Subscribe, id, SetupFailure::Step(0, 1)), EngineError::PluginSubSocketError(id));
    assert_eq!(plugin_socket_error(PluginSocket::Sync, id, SetupFailure::Step(0, 1)), EngineError::PluginSyncSocketError(id, 5000));
    assert_eq!(plugin_socket_error(PluginSocket::External, id, SetupFailure::Step(0, 9)), EngineError::PluginExternalSocketError(id, 9));
    assert_eq!(plugin_socket_error(PluginSocket::External, id, SetupFailure::Create(8)), EngineError::PluginExternalSocketError(id, 8));
    assert_eq!(subscription_filter_error(), EngineError::EngineSetSubFilterError());
    assert_eq!(
        plugin_subscription_error("TypeA".to_string(), id),
        EngineError::PluginSubscriptionError("TypeA".to_string(), id)
    );
}
