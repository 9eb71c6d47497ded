//! The operator: its configuration, the status it reports on an Ogmios
//! port, and how it meters the proxy's usage.

pub mod config;
pub mod controller;
pub mod metrics;
