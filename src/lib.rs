//! A small chat backend library: message values, their JSON frames, the
//! history filter, the per-client streaming session state machine, and the
//! HTTP route table.

pub mod feed;
pub mod frame;
pub mod history;
pub mod message;
pub mod routes;
pub mod session;
