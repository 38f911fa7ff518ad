//! Market-data acquisition engine: wire-format parsers for three quote
//! providers, a failover-aware source manager and the decisions of the
//! polling loop.
//!
//! The engine performs no input or output. It says which requests to send,
//! reads the replies it is handed, and decides what to announce. Money is
//! held in fixed point: see `amount`.

pub mod amount;
pub mod config;
pub mod desktop;
pub mod json;
pub mod manager;
pub mod models;
pub mod poller;
pub mod sources;
pub mod text;
