//! Verified core of a multi-tenant MQTT broker extension layer: the
//! PUBLISH wire codec, the tenant topic-namespace rewriter, the
//! policy-hook decision logic and webhook event planning, and the
//! metrics-export mapping.
//!
//! Network and file I/O, configuration loading and logging live outside
//! this crate; every function here is a pure transformation over
//! in-memory values with a verified contract.

pub mod hooks;
pub mod metrics;
pub mod publish;
pub mod settings;
pub mod topics;
