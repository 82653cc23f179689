//! Client core for a brokerage's real-time market-data stream: endpoint
//! selection, subscription requests, the connection handshake, and the
//! decoding of inbound records into typed market events.

pub mod asset;
pub mod config;
pub mod endpoint;
pub mod event;
pub mod json;
pub mod order;
pub mod session;
pub mod subscription;
pub mod text;
