//! A URL-shortening service: random short aliases, a table that maps each
//! alias to its target URL, and the decisions that the HTTP boundary turns
//! into replies.

pub mod alias;
pub mod errors;
pub mod reply;
pub mod service;
pub mod store;
