//! Automated fulfillment of the DNS-01 domain-validation challenge against a
//! DNS-hosting provider's record API.
//!
//! The verified core covers the challenge orchestration decisions: resolving a
//! fully-qualified domain name to the hosting zone that manages it, computing
//! the challenge record name, planning one record-creation call per challenge,
//! the propagation poller's interval/budget policy, and the aggregation of
//! batch outcomes. The surrounding binary performs the HTTP and DNS traffic
//! and feeds the results back in as plain values.

pub mod model;
pub mod names;
pub mod orchestrate;
pub mod poll;
pub mod records;
pub mod resolve;
