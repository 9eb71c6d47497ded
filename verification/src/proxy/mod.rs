//! The proxy: tiers and their rate limits, consumers, request routing,
//! authentication plugins and the proxy's own configuration.

pub mod tiers;
pub mod limiter;
pub mod config;
pub mod health;
pub mod utils;
pub mod routing;
pub mod plugins;
pub mod metrics;
