//! Document narrative model (DNM) configuration: the policy and parameter
//! types consumed by an extraction engine that turns a DOM tree into
//! plaintext.

pub mod parameters;
pub mod policy;
