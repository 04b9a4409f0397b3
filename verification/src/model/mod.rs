//! The account model.
pub mod change;
pub mod lookup;
pub mod password;
pub mod query;
pub mod store;
pub mod token;
pub mod user;
pub mod user_email;
pub mod user_reset_password_state;
pub mod user_state;
pub mod user_uuid;
