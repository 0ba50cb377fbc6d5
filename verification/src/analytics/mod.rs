//! The analytics service and its terminal client: analysis jobs over stored
//! market data, and the client's screens, selections and subscriptions.
pub mod types;
pub mod tui;
pub mod screens;
pub mod api;
pub mod config;
