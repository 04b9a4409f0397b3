//! User accounts: records, passwords, lookups, and the login of a request.
//!
//! The library performs no input or output. Where an answer has to come from a
//! store or from a request, a function returns what to ask, and another one
//! takes the reply and goes on from there.
pub mod model;
pub mod request;
