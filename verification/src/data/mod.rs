//! What the authority stores.
pub mod entities;
