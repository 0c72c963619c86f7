//! Shutdown coordination for a single-upstream reverse-proxy gateway: a
//! take-once shutdown signal, the authenticated trigger endpoint, the request
//! router's classification, and the serving lifecycle that drains in-flight
//! work before the upstream is notified.

pub mod signal;
pub mod trigger;
pub mod config;
pub mod lifecycle;
