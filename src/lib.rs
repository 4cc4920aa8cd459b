//! Decoding and polling logic for a cluster-wide tail of node debug events.
//!
//! Each monitored node exposes a debug endpoint returning recent raw events
//! (a name, a timestamp and a JSON payload). This library turns those raw
//! events into typed [`event::ValidatorEvent`]s and decides, poll after poll,
//! what a per-node poller delivers, how long it sleeps and when it must stop.
//! Threads, RPC clients and the fan-in channel live outside the library.

pub mod json;

pub mod event;
pub mod decode;
pub mod poller;
