//! Client-side facade for a stream messaging broker: identifiers, message
//! records, polling and partitioning strategies, error translation and the
//! per-operation requests that a host binding submits to the native client.

pub mod client;
pub mod compression;
pub mod consumer;
pub mod error;
pub mod identifier;
pub mod lifecycle;
pub mod message;
pub mod receive_message;
pub mod send_message;
pub mod strategy;
pub mod stream;
pub mod topic;
pub mod native;
