//! A dynamic-DNS client for the Gandi LiveDNS API: the configuration it
//! serves, the calls it makes, and the reconciliation loop that decides them.

pub mod config;
pub mod engine;
pub mod errors;
pub mod gandi;
pub mod laws;
pub mod opts;
pub mod reconciler;
