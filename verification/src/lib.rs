//! A verified model of a real-world-asset token launchpad: an administered
//! token ledger with an investor whitelist and a fixed number of investment
//! slots.
pub mod address;
pub mod error;
pub mod asset;
pub mod events;
pub mod model;
pub mod launchpad;
pub mod laws;
