//! The records that requests carry and that the store keeps.

pub mod account;
pub mod answers;
pub mod pagination;
pub mod questions;
