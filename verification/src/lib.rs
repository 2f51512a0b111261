//! Verified core of an Open Service Broker: catalog lookup, resource storage,
//! operation tracking, the instance/binding lifecycle engine, and API-version
//! negotiation.

pub mod binding;
pub mod catalog;
pub mod engine;
pub mod errors;
pub mod keyed_map;
pub mod kv;
pub mod laws;
pub mod polling;
pub mod service;
pub mod store;
pub mod tracker;
pub mod version;
