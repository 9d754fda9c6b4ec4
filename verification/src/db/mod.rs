//! The records that the store keeps, and the two kinds of connection to it.

pub mod actor;
pub mod models;
