//! Startup validation, alerting rules, health classification and the node
//! lifecycle of a validator node, with their contracts.

pub mod text;
pub mod production;
pub mod metrics_alerting;
pub mod node;
