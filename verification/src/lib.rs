//! Verified core of the Ogmios port gateway: the proxy's request routing,
//! tier and rate-limit bookkeeping and configuration, and the operator's
//! usage metering.

pub mod env;
pub mod text;
pub mod pattern;
pub mod table;
pub mod proxy;
pub mod operator;
