//! The email addresses of an account.
use vstd::prelude::*;

verus! {

/// What an address is used for.
#[derive(Clone, Copy, Debug, PartialEq, Eq, Structural)]
pub enum UserEmailRole {
    General,
    Primary,
}

/// Whether an address was shown to belong to the account.
#[derive(Clone, Copy, Debug, PartialEq, Eq, Structural)]
pub enum UserEmailVerificationState {
    Pending,
    Done,
}

/// An email address of an account.
#[derive(Debug)]
pub struct UserEmail {
    pub user_id: i64,
    pub email: Option<String>,
    pub role: UserEmailRole,
    pub verification_state: UserEmailVerificationState,
    pub verification_token: Option<String>,
}

/// What a [`UserEmail`] holds.
pub struct UserEmailView {
    pub user_id: i64,
    pub email: Option<Seq<char>>,
    pub role: UserEmailRole,
    pub verification_state: UserEmailVerificationState,
    pub verification_token: Option<Seq<char>>,
}

impl View for UserEmail {
    type V = UserEmailView;

    open spec fn view(&self) -> UserEmailView {
        UserEmailView {
            user_id: self.user_id,
            email: self.email.deep_view(),
            role: self.role,
            verification_state: self.verification_state,
            verification_token: self.verification_token.deep_view(),
        }
    }
}

impl Clone for UserEmail {
    fn clone(&self) -> (copy: Self)
        ensures
            copy@ == self@,
            copy.user_id == self.user_id,
            copy.email.deep_view() == self.email.deep_view(),
            copy.role == self.role,
            copy.verification_state == self.verification_state,
            copy.verification_token.deep_view() == self.verification_token.deep_view(),
    {
        UserEmail {
            user_id: self.user_id,
            email: self.email.clone(),
            role: self.role,
            verification_state: self.verification_state,
            verification_token: self.verification_token.clone(),
        }
    }
}

/// What an address holds is what its view shows.
pub proof fn law_user_email_view(email: UserEmail)
    ensures
        email@.user_id == email.user_id,
        email@.email == email.email.deep_view(),
        email@.role == email.role,
        email@.verification_state == email.verification_state,
        email@.verification_token == email.verification_token.deep_view(),
{
}

} // verus!
