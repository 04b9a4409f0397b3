//! The state of an account.
use vstd::prelude::*;

verus! {

/// Whether an account can be used yet.
#[derive(Clone, Copy, Debug, PartialEq, Eq, Structural)]
pub enum UserState {
    /// The account has been activated.
    Active,
    /// The account waits for its activation.
    Pending,
}

impl UserState {
    /// The name by which a state is shown.
    pub open spec fn label(self) -> Seq<char> {
        match self {
            UserState::Active => "active"@,
            UserState::Pending => "pending"@,
        }
    }

    /// The state's name, as text.
    pub fn to_string(&self) -> (text: String)
        ensures
            text@ == self.label(),
            *self == UserState::Active ==> text@ == "active"@,
            *self == UserState::Pending ==> text@ == "pending"@,
    {
        match self {
            UserState::Active => "active".to_owned(),
            UserState::Pending => "pending".to_owned(),
        }
    }
}

} // verus!
