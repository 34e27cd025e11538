//! The services that the authority is made of.
pub mod basic_issuer;
pub mod basic_verifier;
pub mod client;
pub mod gnap;
pub mod waltid;
