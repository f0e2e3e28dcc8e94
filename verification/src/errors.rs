//! The errors reported by the event engine.
//!
//! A plugin is named by its 128-bit unique id, and a socket-level failure is carried as the
//! raw error number that the messaging layer reported.

use vstd::prelude::*;

verus! {

/// Everything that can go wrong while the engine sets up, synchronises or serves plugins.
#[derive(Debug, Clone, PartialEq, Eq)]
pub enum EngineError {
    /// The engine could not create a socket (error number).
    SubSocketCreateError(i32),
    /// The outgoing socket could not bind to the TCP port (port text, error number).
    SubSocketTCPBindError(String, i32),
    /// The outgoing socket could not bind to its in-process endpoint.
    SubSocketInProcBindError(String),
    /// The incoming socket could not bind to the TCP port (port text).
    PubSocketTCPBindError(String),
    /// The incoming socket could not bind to its in-process endpoint.
    PubSocketInProcBindError(String),
    /// The publish socket of a plugin could not be established.
    PluginPubSocketError(u128),
    /// The subscription socket of a plugin could not be established.
    PluginSubSocketError(u128),
    /// A subscription filter could not be set (event type name, plugin).
    PluginSubscriptionError(String, u128),
    /// The sync socket of a plugin could not be established (plugin, sync port).
    PluginSyncSocketError(u128, i32),
    /// The filter of an event type could not be computed.
    EngineSetSubFilterError(),
    /// The catch-all filter of the incoming socket could not be set (error number).
    EngineSetSubFilterAllError(i32),
    /// A plugin could not send its ready message.
    PluginSyncSendError(u128),
    /// The engine could not create a sync socket.
    EngineSyncSocketCreateError(),
    /// A sync socket could not bind to a TCP port (port, error number).
    EngineSyncSocketTCPBindError(i32, i32),
    /// A sync socket could not bind to its in-process endpoint.
    EngineSyncSocketInprocBindError(String),
    /// The engine could not receive a ready message (error number).
    EngineSyncSocketMsgRcvError(i32),
    /// The engine ran out of sync sockets while replying.
    EngineSyncSocketPopError(),
    /// The engine could not send a sync reply (error number).
    EngineSyncSocketSendRcvError(i32),
    /// Receiving from an external plugin failed (plugin, error number).
    EngineExtSocketRcvError(u128, i32),
    /// Replying to an external plugin failed (plugin, error number).
    EngineExtSocketSendError(u128, i32),
    /// Receiving a subscribed event for an external plugin failed (plugin, error number).
    EngineExtSubSocketRcvError(u128, i32),
    /// Publishing an event for an external plugin failed (plugin, error number).
    EngineExtPubSocketSendError(u128, i32),
    /// The TCP socket of an external plugin could not be established (plugin, error number).
    PluginExternalSocketError(u128, i32),
    /// Bytes could not be decoded as an event of the named type.
    EventDecodeError(String),
}

} // verus!
