//! A price oracle: a registry of assets, the feeder allowed to report each
//! asset's price, and the latest reported price, gated by role checks.
//!
//! `state` holds the store and its mathematical view, `contract` the entry
//! points and the transitions they make, `laws` the properties that relate them.

pub mod contract;
pub mod error;
pub mod laws;
pub mod state;
