//! Market data and trading logic: decimal arithmetic, portfolio and
//! leverage accounting, allocation strategies, feed configuration and
//! subscription handling, and the terminal client's state machine.
pub mod decimal;
pub mod text;
pub mod asset;
pub mod symbol_map;
pub mod trading;
pub mod workers;
pub mod analytics;
