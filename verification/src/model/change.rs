//! Changing what a store holds.
use crate::model::user::{NewUser, NewUserView, User, UserView};
use crate::model::user_reset_password_state::UserResetPasswordState;
use crate::model::user_state::UserState;
use crate::model::user_uuid;
use vstd::prelude::*;

verus! {

/// Asks the store for a new user with these values. The store itself adds the id,
/// the UUID and the times.
#[derive(Debug)]
pub struct UserInsert {
    pub name: Option<String>,
    pub username: String,
    pub email: String,
    pub password: Vec<u8>,
    pub state: UserState,
    pub reset_password_state: UserResetPasswordState,
}

impl View for UserInsert {
    type V = NewUserView;

    open spec fn view(&self) -> NewUserView {
        NewUserView {
            name: self.name.deep_view(),
            username: self.username@,
            email: self.email@,
            password: self.password@,
            state: self.state,
            reset_password_state: self.reset_password_state,
        }
    }
}

impl NewUserView {
    /// The values that are stored for a new user: in every case the user is pending,
    /// and no reset of the password was ever asked for.
    pub open spec fn stored(self) -> NewUserView {
        NewUserView {
            state: UserState::Pending,
            reset_password_state: UserResetPasswordState::Never,
            ..self
        }
    }
}

/// Asks the store to change the state of the user with this id.
#[derive(Clone, Copy, Debug)]
pub struct UserUpdate {
    pub id: i64,
    pub state: UserState,
}

impl UserUpdate {
    /// What becomes of a user.
    pub open spec fn applied(self, user: UserView) -> UserView {
        if user.id == self.id {
            UserView { state: self.state, ..user }
        } else {
            user
        }
    }
}

impl User {
    /// Asks the store for a new user: its reply goes to [`User::inserted`].
    pub fn insert(user: &NewUser) -> (insert: UserInsert)
        ensures
            insert@ == user@.stored(),
            insert.name.deep_view() == user.name.deep_view(),
            insert.username@ == user.username@,
            insert.email@ == user.email@,
            insert.password@ == user.password@,
            insert.state == UserState::Pending,
            insert.reset_password_state == UserResetPasswordState::Never,
    {
        let insert = UserInsert {
            name: user.name.clone(),
            username: user.username.clone(),
            email: user.email.clone(),
            password: user.password.clone(),
            state: UserState::Pending,
            reset_password_state: UserResetPasswordState::Never,
        };
        assert(insert@.password =~= user@.password);
        insert
    }

    /// The user that the store made, if it did.
    pub fn inserted<E>(reply: Result<User, E>) -> (user: Option<User>)
        ensures
            match reply {
                Ok(made) => user == Some(made),
                Err(_) => user is None,
            },
    {
        match reply {
            Ok(user) => Some(user),
            Err(_) => None,
        }
    }

    /// Asks the store to make the user active: its reply goes to
    /// [`User::activated`].
    pub fn activate(&self) -> (update: UserUpdate)
        ensures
            update == (UserUpdate { id: self.id, state: UserState::Active }),
    {
        UserUpdate { id: self.id, state: UserState::Active }
    }

    /// The URN of the user's UUID, if the store made the user active.
    pub fn activated<E>(&self, reply: &Result<User, E>) -> (urn: Result<String, &'static str>)
        ensures
            match *reply {
                Ok(_) => urn matches Ok(text) && text@ == user_uuid::urn(self.uuid),
                Err(_) => urn matches Err(message) && message@ == "failed to activate"@,
            },
    {
        match reply {
            Ok(_) => Ok(user_uuid::uuid_to_urn(self.uuid)),
            Err(_) => Err("failed to activate"),
        }
    }
}

/// What [`User::insert`] asks for is a user with the name, the username, the email and
/// the password of the new one. The two states of the new one make no difference.
pub proof fn law_insert_keeps_values(user: &NewUser, insert: UserInsert)
    requires
        call_ensures(User::insert, (user,), insert),
    ensures
        insert.name.deep_view() == user.name.deep_view(),
        insert.username@ == user.username@,
        insert.email@ == user.email@,
        insert.password@ == user.password@,
        insert.state == UserState::Pending,
        insert.reset_password_state == UserResetPasswordState::Never,
{
}

/// Of the values of a new user, all but the two states are stored as they are: users
/// who agree in the others are stored alike, and users who differ in one of them are
/// not.
pub proof fn law_stored(new: NewUserView, other: NewUserView)
    ensures
        new.stored().name == new.name,
        new.stored().username == new.username,
        new.stored().email == new.email,
        new.stored().password == new.password,
        new.stored().state == UserState::Pending,
        new.stored().reset_password_state == UserResetPasswordState::Never,
        new.stored() == other.stored() <==> {
            &&& new.name == other.name
            &&& new.username == other.username
            &&& new.email == other.email
            &&& new.password == other.password
        },
{
    if new.stored() == other.stored() {
        assert(new.stored().name == other.stored().name);
        assert(new.stored().username == other.stored().username);
        assert(new.stored().email == other.stored().email);
        assert(new.stored().password == other.stored().password);
    }
}

/// What an insert holds is what its view shows.
pub proof fn law_user_insert_view(insert: UserInsert)
    ensures
        insert@.name == insert.name.deep_view(),
        insert@.username == insert.username@,
        insert@.email == insert.email@,
        insert@.password == insert.password@,
        insert@.state == insert.state,
        insert@.reset_password_state == insert.reset_password_state,
{
}

/// An update sets the state of the user with its id, and changes nothing else of that
/// user, and nobody else.
pub proof fn law_applied(update: UserUpdate, user: UserView)
    ensures
        user.id == update.id ==> update.applied(user).state == update.state,
        user.id != update.id ==> update.applied(user).state == user.state,
        update.applied(user).id == user.id,
        update.applied(user).uuid == user.uuid,
        update.applied(user).name == user.name,
        update.applied(user).username == user.username,
        update.applied(user).email == user.email,
        update.applied(user).password == user.password,
        update.applied(user).reset_password_state == user.reset_password_state,
        update.applied(user).reset_password_token == user.reset_password_token,
        update.applied(user).reset_password_token_expires_at
            == user.reset_password_token_expires_at,
        update.applied(user).reset_password_token_granted_at
            == user.reset_password_token_granted_at,
        update.applied(user).created_at == user.created_at,
        update.applied(user).updated_at == user.updated_at,
{
}

/// Activating a user asks for the active state of the user with that very id, and gives
/// the URN of the user's own UUID exactly if the store did as it was asked, whatever user
/// it replies with.
pub proof fn law_activation<E>(
    user: &User,
    update: UserUpdate,
    reply: &Result<User, E>,
    urn: Result<String, &'static str>,
)
    requires
        call_ensures(User::activate, (user,), update),
        call_ensures(User::activated::<E>, (user, reply), urn),
    ensures
        update.id == user.id,
        update.state == UserState::Active,
        urn is Ok <==> reply is Ok,
        urn matches Ok(text) ==> {
            &&& text@ == "urn:uuid:"@ + user_uuid::hyphenated(user.uuid)
            &&& user_uuid::uuid_of(text@) == Some(user.uuid)
        },
        urn matches Err(message) ==> message@ == "failed to activate"@,
{
    user_uuid::law_text_gives_back_uuid(user.uuid);
}

} // verus!
