//! A question-and-answer forum service: accounts, signed sessions, moderated
//! questions and answers, and the rules that decide what a request may do.

pub mod crypt;
pub mod errors;
pub mod handlers;
pub mod profanity;
pub mod store;
pub mod text;
pub mod types;
