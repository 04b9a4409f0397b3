//! The data of a registration.
use vstd::prelude::*;

verus! {

/// What a person fills in to register.
#[derive(Debug)]
pub struct UserRegistration {
    pub name: Option<String>,
    pub username: String,
    pub email: String,
    pub password: String,
}

impl Clone for UserRegistration {
    fn clone(&self) -> (copy: Self)
        ensures
            copy.name.deep_view() == self.name.deep_view(),
            copy.username@ == self.username@,
            copy.email@ == self.email@,
            copy.password@ == self.password@,
    {
        UserRegistration {
            name: self.name.clone(),
            username: self.username.clone(),
            email: self.email.clone(),
            password: self.password.clone(),
        }
    }
}

} // verus!
