//! Core of a dataspace authority: the ceremony by which a participant is
//! granted, presents and receives verifiable credentials.
pub mod authority;
pub mod clock;
pub mod config;
pub mod data;
pub mod errors;
pub mod json;
pub mod laws;
pub mod outside;
pub mod services;
pub mod store;
pub mod text;
pub mod types;
pub mod utils;
