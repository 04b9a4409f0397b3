//! Users, before and after they are stored.
use crate::model::password;
use crate::model::password::PasswordError;
use crate::model::user_uuid;
use crate::model::user_reset_password_state::UserResetPasswordState;
use crate::model::user_state::UserState;
use crate::request::user::registration::UserRegistration;
use chrono::NaiveDateTime;
use vstd::prelude::*;
use vstd::string::*;
use vstd::utf8::*;

verus! {

/// A date and time, which the library only carries along.
#[verifier::external_type_specification]
#[verifier::external_body]
pub struct ExNaiveDateTime(NaiveDateTime);

/// A user who is not stored yet.
#[derive(Debug)]
pub struct NewUser {
    pub name: Option<String>,
    pub username: String,
    pub email: String,
    pub password: Vec<u8>,
    pub state: UserState,
    pub reset_password_state: UserResetPasswordState,
}

/// What a [`NewUser`] holds.
pub struct NewUserView {
    pub name: Option<Seq<char>>,
    pub username: Seq<char>,
    pub email: Seq<char>,
    pub password: Seq<u8>,
    pub state: UserState,
    pub reset_password_state: UserResetPasswordState,
}

impl View for NewUser {
    type V = NewUserView;

    open spec fn view(&self) -> NewUserView {
        NewUserView {
            name: self.name.deep_view(),
            username: self.username@,
            email: self.email@,
            password: self.password@,
            state: self.state,
            reset_password_state: self.reset_password_state,
        }
    }
}

impl NewUserView {
    /// A pending user about whom nothing is known.
    pub open spec fn blank() -> NewUserView {
        NewUserView {
            name: None,
            username: seq![],
            email: seq![],
            password: seq![],
            state: UserState::Pending,
            reset_password_state: UserResetPasswordState::Never,
        }
    }

    /// The user that a registration asks for: the password is not taken over.
    pub open spec fn registered(data: UserRegistration) -> NewUserView {
        NewUserView {
            name: data.name.deep_view(),
            username: data.username@,
            email: data.email@,
            ..NewUserView::blank()
        }
    }
}

impl Default for NewUser {
    /// A blank user: neither the email nor the password is valid yet.
    fn default() -> (user: Self)
        ensures
            user@ == NewUserView::blank(),
            user.name is None,
            user.username@.len() == 0,
            user.email@.len() == 0,
            user.password@.len() == 0,
            user.state == UserState::Pending,
            user.reset_password_state == UserResetPasswordState::Never,
    {
        NewUser {
            name: None,
            username: String::new(),
            email: String::new(),
            password: Vec::new(),
            state: UserState::Pending,
            reset_password_state: UserResetPasswordState::Never,
        }
    }
}

impl<'a> From<&'a UserRegistration> for NewUser {
    /// Takes over the name, the username and the email.
    fn from(data: &'a UserRegistration) -> (user: Self)
        ensures
            user@ == NewUserView::registered(*data),
            user.name.deep_view() == data.name.deep_view(),
            user.username@ == data.username@,
            user.email@ == data.email@,
            user.password@.len() == 0,
            user.state == UserState::Pending,
            user.reset_password_state == UserResetPasswordState::Never,
    {
        let data = data.clone();
        NewUser {
            name: data.name,
            username: data.username,
            email: data.email,
            ..Default::default()
        }
    }
}

impl<'a> vstd::std_specs::convert::FromSpecImpl<&'a UserRegistration> for NewUser {
    open spec fn obeys_from_spec() -> bool {
        false
    }

    open spec fn from_spec(data: &'a UserRegistration) -> Self {
        arbitrary()
    }
}

impl NewUser {
    /// The text by which the user is shown.
    pub fn to_string(&self) -> (text: String)
        ensures
            text@ == "<NewUser "@ + self.state.label() + ">"@,
            self.state == UserState::Active ==> text@ == "<NewUser "@ + "active"@ + ">"@,
            self.state == UserState::Pending ==> text@ == "<NewUser "@ + "pending"@ + ">"@,
    {
        let mut text = "<NewUser ".to_owned();
        text.append(self.state.to_string().as_str());
        text.append(">");
        text
    }

    /// Takes over an encrypted password, if there is one.
    pub fn put_password(&mut self, encrypted: Option<Vec<u8>>) -> (outcome: Result<
        (),
        PasswordError,
    >)
        ensures
            match encrypted {
                Some(bytes) => outcome is Ok && *final(self) == (NewUser {
                    password: bytes,
                    ..*old(self)
                }),
                None => outcome == Err::<(), _>(PasswordError::NotEncrypted) && *final(self) == *old(
                    self,
                ),
            },
    {
        match encrypted {
            Some(bytes) => {
                self.password = bytes;
                Ok(())
            },
            None => Err(PasswordError::NotEncrypted),
        }
    }

    /// Encrypts a password and takes it over. Encryption is slow by design.
    pub fn set_password(&mut self, password: &str) -> (outcome: Result<(), PasswordError>)
        ensures
            outcome is Ok ==> password::is_encryption_of(final(self).password@, password@),
            outcome is Ok ==> *final(self) == (NewUser {
                password: final(self).password,
                ..*old(self)
            }),
            outcome is Err ==> *final(self) == *old(self),
            password@.contains('\0') ==> outcome is Err,
            exists|hashed: Result<String, bcrypt::BcryptError>| #[trigger]
                password::may_hash_to(password, 12, hashed) && match hashed {
                    Ok(hash) => outcome is Ok && final(self).password@ == encode_utf8(hash@),
                    Err(_) => outcome == Err::<(), _>(PasswordError::NotEncrypted),
                },
    {
        let encrypted = password::encrypt_password(password);
        self.put_password(encrypted)
    }
}

/// A stored user.
#[derive(Debug)]
pub struct User {
    pub id: i64,
    pub uuid: u128,
    pub name: Option<String>,
    pub username: String,
    pub email: String,
    pub password: Vec<u8>,
    pub state: UserState,
    pub reset_password_state: UserResetPasswordState,
    pub reset_password_token: Option<String>,
    pub reset_password_token_expires_at: Option<NaiveDateTime>,
    pub reset_password_token_granted_at: Option<NaiveDateTime>,
    pub created_at: NaiveDateTime,
    pub updated_at: NaiveDateTime,
}

/// What a [`User`] holds.
pub struct UserView {
    pub id: i64,
    pub uuid: u128,
    pub name: Option<Seq<char>>,
    pub username: Seq<char>,
    pub email: Seq<char>,
    pub password: Seq<u8>,
    pub state: UserState,
    pub reset_password_state: UserResetPasswordState,
    pub reset_password_token: Option<Seq<char>>,
    pub reset_password_token_expires_at: Option<NaiveDateTime>,
    pub reset_password_token_granted_at: Option<NaiveDateTime>,
    pub created_at: NaiveDateTime,
    pub updated_at: NaiveDateTime,
}

impl View for User {
    type V = UserView;

    open spec fn view(&self) -> UserView {
        UserView {
            id: self.id,
            uuid: self.uuid,
            name: self.name.deep_view(),
            username: self.username@,
            email: self.email@,
            password: self.password@,
            state: self.state,
            reset_password_state: self.reset_password_state,
            reset_password_token: self.reset_password_token.deep_view(),
            reset_password_token_expires_at: self.reset_password_token_expires_at,
            reset_password_token_granted_at: self.reset_password_token_granted_at,
            created_at: self.created_at,
            updated_at: self.updated_at,
        }
    }
}

impl Clone for User {
    fn clone(&self) -> (copy: Self)
        ensures
            copy@ == self@,
            copy.id == self.id,
            copy.uuid == self.uuid,
            copy.name.deep_view() == self.name.deep_view(),
            copy.username@ == self.username@,
            copy.email@ == self.email@,
            copy.password@ == self.password@,
            copy.state == self.state,
            copy.reset_password_state == self.reset_password_state,
            copy.reset_password_token.deep_view() == self.reset_password_token.deep_view(),
            copy.reset_password_token_expires_at == self.reset_password_token_expires_at,
            copy.reset_password_token_granted_at == self.reset_password_token_granted_at,
            copy.created_at == self.created_at,
            copy.updated_at == self.updated_at,
    {
        User {
            id: self.id,
            uuid: self.uuid,
            name: self.name.clone(),
            username: self.username.clone(),
            email: self.email.clone(),
            password: self.password.clone(),
            state: self.state,
            reset_password_state: self.reset_password_state,
            reset_password_token: self.reset_password_token.clone(),
            reset_password_token_expires_at: self.reset_password_token_expires_at,
            reset_password_token_granted_at: self.reset_password_token_granted_at,
            created_at: self.created_at,
            updated_at: self.updated_at,
        }
    }
}

impl User {
    /// The text by which the user is shown.
    pub fn to_string(&self) -> (text: String)
        ensures
            text@ == "<User "@ + user_uuid::hyphenated(self.uuid) + ">"@,
    {
        let mut text = "<User ".to_owned();
        text.append(user_uuid::uuid_to_string(self.uuid).as_str());
        text.append(">");
        text
    }

    /// Takes over an encrypted password, if there is one.
    pub fn put_password(&mut self, encrypted: Option<Vec<u8>>) -> (outcome: Result<
        (),
        PasswordError,
    >)
        ensures
            match encrypted {
                Some(bytes) => outcome is Ok && *final(self) == (User {
                    password: bytes,
                    ..*old(self)
                }),
                None => outcome == Err::<(), _>(PasswordError::NotEncrypted) && *final(self) == *old(
                    self,
                ),
            },
    {
        match encrypted {
            Some(bytes) => {
                self.password = bytes;
                Ok(())
            },
            None => Err(PasswordError::NotEncrypted),
        }
    }

    /// Encrypts a password and takes it over in place of the one before.
    pub fn change_password(&mut self, password: &str) -> (outcome: Result<(), PasswordError>)
        ensures
            outcome is Ok ==> password::is_encryption_of(final(self).password@, password@),
            outcome is Ok ==> *final(self) == (User {
                password: final(self).password,
                ..*old(self)
            }),
            outcome is Err ==> *final(self) == *old(self),
            password@.contains('\0') ==> outcome is Err,
            exists|hashed: Result<String, bcrypt::BcryptError>| #[trigger]
                password::may_hash_to(password, 12, hashed) && match hashed {
                    Ok(hash) => outcome is Ok && final(self).password@ == encode_utf8(hash@),
                    Err(_) => outcome == Err::<(), _>(PasswordError::NotEncrypted),
                },
    {
        let encrypted = password::encrypt_password(password);
        self.put_password(encrypted)
    }

    /// Whether a password is the user's own, where the stored one allows a
    /// verdict. Takes a while.
    pub fn verify_password(&self, password: &str) -> (accepted: bool)
        requires
            password::password_verdict(self.password@, password@) is Some,
        ensures
            password::password_verdict(self.password@, password@) == Some(accepted),
            forall|hash: Seq<char>|
                self.password@ == #[trigger] encode_utf8(hash) && is_ascii_chars(hash)
                    ==> password::bcrypt_verdict(password@, hash) == Some(accepted),
    {
        password::check_password(&self.password, password).unwrap()
    }

    /// Whether a password is the user's own, or `None` where the stored one allows
    /// no verdict.
    pub fn try_verify_password(&self, password: &str) -> (accepted: Option<bool>)
        ensures
            accepted == password::password_verdict(self.password@, password@),
            forall|hash: Seq<char>|
                self.password@ == #[trigger] encode_utf8(hash) && is_ascii_chars(hash) ==> accepted
                    == password::bcrypt_verdict(password@, hash),
            accepted is Some ==> exists|hash: Seq<char>|
                self.password@ == #[trigger] encode_utf8(hash) && is_ascii_chars(hash),
    {
        if password::check_password(&self.password, password).is_some() {
            Some(self.verify_password(password))
        } else {
            None
        }
    }
}

/// What a new user holds is what its view shows.
pub proof fn law_new_user_view(user: NewUser)
    ensures
        user@.name == user.name.deep_view(),
        user@.username == user.username@,
        user@.email == user.email@,
        user@.password == user.password@,
        user@.state == user.state,
        user@.reset_password_state == user.reset_password_state,
{
}

/// What a user holds is what its view shows.
pub proof fn law_user_view(user: User)
    ensures
        user@.id == user.id,
        user@.uuid == user.uuid,
        user@.name == user.name.deep_view(),
        user@.username == user.username@,
        user@.email == user.email@,
        user@.password == user.password@,
        user@.state == user.state,
        user@.reset_password_state == user.reset_password_state,
        user@.reset_password_token == user.reset_password_token.deep_view(),
        user@.reset_password_token_expires_at == user.reset_password_token_expires_at,
        user@.reset_password_token_granted_at == user.reset_password_token_granted_at,
        user@.created_at == user.created_at,
        user@.updated_at == user.updated_at,
{
}

/// A registration settles who the new user is, and nothing else: registrations that
/// agree on the name, the username and the email make the same user, whatever their
/// passwords; and a blank user differs from that one in these three alone.
pub proof fn law_registered(data: UserRegistration, other: UserRegistration)
    ensures
        NewUserView::registered(data) == (NewUserView {
            name: data.name.deep_view(),
            username: data.username@,
            email: data.email@,
            ..NewUserView::blank()
        }),
        NewUserView::blank().name is None,
        NewUserView::blank().username.len() == 0,
        NewUserView::blank().email.len() == 0,
        NewUserView::blank().password.len() == 0,
        NewUserView::blank().state == UserState::Pending,
        NewUserView::blank().reset_password_state == UserResetPasswordState::Never,
        NewUserView::registered(data) == NewUserView::registered(other) <==> {
            &&& data.name.deep_view() == other.name.deep_view()
            &&& data.username@ == other.username@
            &&& data.email@ == other.email@
        },
{
    let (a, b) = (NewUserView::registered(data), NewUserView::registered(other));
    assert(a.name == data.name.deep_view() && b.name == other.name.deep_view());
}

/// A password is accepted of a user exactly if bcrypt accepts it for the ASCII text that
/// is stored, and refused exactly if bcrypt refuses it. Both ways of asking agree.
pub proof fn law_verify_password(
    user: &User,
    password: &str,
    hash: Seq<char>,
    accepted: bool,
    tried: Option<bool>,
)
    requires
        user.password@ == encode_utf8(hash),
        is_ascii_chars(hash),
        call_ensures(User::verify_password, (user, password), accepted),
        call_ensures(User::try_verify_password, (user, password), tried),
    ensures
        password::bcrypt_verdict(password@, hash) == Some(accepted),
        tried == Some(accepted),
{
}

/// Setting a password succeeds exactly as the call of bcrypt for that very password at the
/// cost 12 does, and then the new user holds the bytes of the hash that bcrypt gave.
/// Nothing else of the new user changes, and nothing at all without a hash.
pub proof fn law_set_password(
    user: &mut NewUser,
    password: &str,
    outcome: Result<(), PasswordError>,
)
    requires
        call_ensures(NewUser::set_password, (user, password), outcome),
    ensures
        exists|hashed: Result<String, bcrypt::BcryptError>| #[trigger]
            password::may_hash_to(password, 12, hashed) && match hashed {
                Ok(hash) => outcome is Ok && final(user).password@ == encode_utf8(hash@),
                Err(_) => outcome is Err && *final(user) == *old(user),
            },
        *final(user) == (NewUser { password: final(user).password, ..*old(user) }),
{
}

/// Changing a password succeeds exactly as the call of bcrypt for that very password at
/// the cost 12 does, and then the user holds the bytes of the hash that bcrypt gave.
/// Nothing else of the user changes, and nothing at all without a hash.
pub proof fn law_change_password(
    user: &mut User,
    password: &str,
    outcome: Result<(), PasswordError>,
)
    requires
        call_ensures(User::change_password, (user, password), outcome),
    ensures
        exists|hashed: Result<String, bcrypt::BcryptError>| #[trigger]
            password::may_hash_to(password, 12, hashed) && match hashed {
                Ok(hash) => outcome is Ok && final(user).password@ == encode_utf8(hash@),
                Err(_) => outcome is Err && *final(user) == *old(user),
            },
        *final(user) == (User { password: final(user).password, ..*old(user) }),
{
}

} // verus!
