//! An email-sending client for a newsletter service.
//!
//! The crate holds the validated address type, the client's configuration,
//! the request that one send operation hands to the provider, and the rule
//! that turns the provider's answer into success or failure.

pub mod domain;
pub mod email_client;
