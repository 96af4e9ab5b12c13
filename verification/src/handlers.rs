//! What the service does with each kind of request.

pub mod answers;
pub mod auth;
pub mod questions;
