//! The market data workers: configuration, feed messages, subscription
//! commands and their routing to the per-class feed connections.
pub mod assetclass;
pub mod config;
pub mod message;
pub mod client;
pub mod ws;
pub mod actors;
pub mod handlers;
pub mod streams;
