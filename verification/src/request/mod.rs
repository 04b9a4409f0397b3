//! What requests bring in.
pub mod token;
pub mod user;
