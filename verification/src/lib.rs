//! A single-shot dynamic-DNS updater library.
//!
//! The library holds the verified core of the updater: cleaning the text
//! returned by an IP-echo service, collecting the required configuration
//! values, and building the exact HTTP request that overwrites one DNS
//! record at the provider's management API. Issuing the two network calls
//! is left to a thin unverified shell around the library.

pub mod address;
pub mod config;
pub mod payload;
pub mod plan;
pub mod request;
