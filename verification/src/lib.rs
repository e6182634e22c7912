//! Verified core of the Mordexel trading engine: the domain model, signal
//! parsing, execution rules, the Binance user-stream event logic and the
//! engine's execution policy.

pub mod text;
pub mod domain;
pub mod signals;
pub mod engine;
pub mod execution;
pub mod binance;
pub mod ws;
pub mod ingress;
