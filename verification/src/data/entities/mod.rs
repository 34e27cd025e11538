//! The five kinds of row.
pub mod interaction;
pub mod issuing;
pub mod minions;
pub mod request;
pub mod verification;
