//! OmniGate: the protocol-neutral core of a gateway that serves one set of
//! operations (a grid-item store, a user directory, credential checks and
//! periodic user-update subscriptions) over REST, gRPC and JSON-RPC.
//!
//! Everything here is plain data and decisions; listeners, locks, timers and
//! wire encodings live in the application around it.

pub mod config;
pub mod errors;
pub mod greeter;
pub mod grid;
pub mod rest;
pub mod rpc;
pub mod subscription;
pub mod text;
pub mod users;
