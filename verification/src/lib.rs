//! A DNS-based service-discovery client core: resolve a logical service name
//! into a list of live endpoints, cache the list until its TTL-derived expiry,
//! and hand out endpoints to callers in round-robin order.

pub mod cache;
pub mod client;
pub mod endpoint;
pub mod error;
pub mod laws;
pub mod resolver;
pub mod selector;
pub mod shared;
