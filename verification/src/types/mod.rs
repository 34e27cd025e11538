//! The values that pass between the services and their callers.
pub mod cred_config;
pub mod cred_subject;
pub mod gnap;
pub mod host;
pub mod issuing;
pub mod vc_type;
pub mod vcs;
