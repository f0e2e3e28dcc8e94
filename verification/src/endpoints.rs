//! The endpoints the engine binds and connects.

use vstd::prelude::*;
use vstd::string::*;
use crate::text::{i32_to_text, signed_decimal, uuid_text, uuid_to_text};

verus! {

/// The in-process endpoints and the sync port shared by the engine and its plugins.
pub struct SocketData {
    /// Where plugins publish their events (the engine's incoming side).
    pub pub_socket_inproc_url: String,
    /// Where plugins receive the events they subscribed to (the engine's outgoing side).
    pub sub_socket_inproc_url: String,
    /// The port reported for sync sockets.
    pub sync_socket_port: i32,
    /// The prefix of each plugin's sync endpoint.
    pub sync_inproc_url: String,
}

/// The in-process endpoint on which plugins publish.
pub open spec fn messages_url() -> Seq<char> {
    "inproc://messages"@
}

/// The in-process endpoint on which plugins receive.
pub open spec fn events_url() -> Seq<char> {
    "inproc://events"@
}

/// The prefix of the sync endpoints.
pub open spec fn sync_prefix() -> Seq<char> {
    "inproc://sync"@
}

/// The port reported for sync sockets.
pub open spec fn sync_port() -> i32 {
    5000
}

impl SocketData {
    /// Whether these are the engine's standard endpoints.
    pub open spec fn is_standard(&self) -> bool {
        &&& self.pub_socket_inproc_url@ == messages_url()
        &&& self.sub_socket_inproc_url@ == events_url()
        &&& self.sync_socket_port == sync_port()
        &&& self.sync_inproc_url@ == sync_prefix()
    }
}

impl Default for SocketData {
    fn default() -> (d: Self)
        ensures
            d.is_standard(),
    {
        proof {
            reveal_strlit("inproc://messages");
            reveal_strlit("inproc://events");
            reveal_strlit("inproc://sync");
        }
        SocketData {
            pub_socket_inproc_url: String::from_str("inproc://messages"),
            sub_socket_inproc_url: String::from_str("inproc://events"),
            sync_socket_port: 5000,
            sync_inproc_url: String::from_str("inproc://sync"),
        }
    }
}

/// The TCP endpoint that binds `port` on every interface: `tcp://*:<port>`.
pub open spec fn tcp_url(port: i32) -> Seq<char> {
    "tcp://*:"@ + signed_decimal(port as int)
}

/// The sync endpoint of one plugin: the sync prefix, `-`, and the plugin's id text.
pub open spec fn sync_url(prefix: Seq<char>, id: u128) -> Seq<char> {
    prefix + "-"@ + uuid_text(id)
}

/// Builds the TCP endpoint that binds `port` on every interface.
pub fn tcp_bind_url(port: i32) -> (u: String)
    ensures
        u@ == tcp_url(port),
{
    let mut u = String::from_str("tcp://*:");
    let digits = i32_to_text(port);
    u.append(digits.as_str());
    u
}

/// Builds the sync endpoint of the plugin `id` under `prefix`.
pub fn plugin_sync_url(prefix: &str, id: u128) -> (u: String)
    ensures
        u@ == sync_url(prefix@, id),
{
    let mut u = String::from_str(prefix);
    u.append("-");
    let id_text = uuid_to_text(id);
    u.append(id_text.as_str());
    u
}

} // verus!
