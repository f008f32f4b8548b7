//! Revolv3 payment connector: identity, transport settings, placeholder
//! operations and the static capability metadata of the connector.

pub mod connector;
pub mod enums;
pub mod errors;
pub mod features;
pub mod types;
