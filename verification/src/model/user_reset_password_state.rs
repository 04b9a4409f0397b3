//! How far the reset of a password has come.
use vstd::prelude::*;

verus! {

/// How far the reset of an account's password has come.
#[derive(Clone, Copy, Debug, PartialEq, Eq, Structural)]
pub enum UserResetPasswordState {
    /// No reset was ever asked for.
    Never,
    /// A reset was asked for and is not done yet.
    Pending,
}

} // verus!
