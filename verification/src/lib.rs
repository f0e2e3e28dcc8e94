//! An event engine for plugin-based applications.
//!
//! Plugins exchange typed events through a publish-subscribe proxy. This crate holds the
//! engine's own logic: the endpoints it binds and connects, how each socket is prepared and
//! which error a failure at each step becomes, the start-up barrier that holds every plugin
//! until all of them are ready, the command protocol spoken with external plugins, and the
//! byte framing of events (with the event types of the bundled demo and load test).
//! The sockets, threads and the proxy itself are driven by the surrounding application.

pub mod errors;
pub mod text;
pub mod endpoints;
pub mod setup;
pub mod engine;
pub mod sync;
pub mod external;
pub mod events;
pub mod demo;
pub mod reply_cycle;
