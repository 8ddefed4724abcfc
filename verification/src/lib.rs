//! A verified JSON-RPC dispatcher for a tool-invocation protocol served over
//! two execution paths: a cheap, read-only path and an authoritative,
//! state-mutating path reached only through an explicit upgrade signal.

pub mod json;
pub mod ser;
pub mod rpc_model;
pub mod codec;
pub mod text;
pub mod handler;
pub mod server;
pub mod laws;
