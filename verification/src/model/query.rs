//! The questions that are put to a store of users.
use crate::model::user::{User, UserView};
use crate::model::user_email::{
    UserEmail, UserEmailRole, UserEmailVerificationState, UserEmailView,
};
use crate::model::user_state::UserState;
use vstd::prelude::*;

verus! {

/// A condition on a user.
#[derive(Debug)]
pub enum UserCondition {
    Email(String),
    Username(String),
    Uuid(u128),
    State(UserState),
}

/// What a [`UserCondition`] holds.
pub enum UserConditionView {
    Email(Seq<char>),
    Username(Seq<char>),
    Uuid(u128),
    State(UserState),
}

impl View for UserCondition {
    type V = UserConditionView;

    open spec fn view(&self) -> UserConditionView {
        match self {
            UserCondition::Email(email) => UserConditionView::Email(email@),
            UserCondition::Username(username) => UserConditionView::Username(username@),
            UserCondition::Uuid(uuid) => UserConditionView::Uuid(*uuid),
            UserCondition::State(state) => UserConditionView::State(*state),
        }
    }
}

impl UserConditionView {
    /// Whether a user meets the condition.
    pub open spec fn holds(self, user: UserView) -> bool {
        match self {
            UserConditionView::Email(email) => user.email == email,
            UserConditionView::Username(username) => user.username == username,
            UserConditionView::Uuid(uuid) => user.uuid == uuid,
            UserConditionView::State(state) => user.state == state,
        }
    }
}

impl UserCondition {
    /// Whether a user meets the condition.
    pub fn holds(&self, user: &User) -> (met: bool)
        ensures
            met == self@.holds(user@),
            met == match *self {
                UserCondition::Email(email) => user.email@ == email@,
                UserCondition::Username(username) => user.username@ == username@,
                UserCondition::Uuid(uuid) => user.uuid == uuid,
                UserCondition::State(state) => user.state == state,
            },
    {
        match self {
            UserCondition::Email(email) => user.email == *email,
            UserCondition::Username(username) => user.username == *username,
            UserCondition::Uuid(uuid) => user.uuid == *uuid,
            UserCondition::State(state) => user.state == *state,
        }
    }
}

/// A condition on an email address of a user.
#[derive(Debug)]
pub enum UserEmailCondition {
    Role(UserEmailRole),
    VerificationState(UserEmailVerificationState),
    VerificationToken(String),
}

/// What a [`UserEmailCondition`] holds.
pub enum UserEmailConditionView {
    Role(UserEmailRole),
    VerificationState(UserEmailVerificationState),
    VerificationToken(Seq<char>),
}

impl View for UserEmailCondition {
    type V = UserEmailConditionView;

    open spec fn view(&self) -> UserEmailConditionView {
        match self {
            UserEmailCondition::Role(role) => UserEmailConditionView::Role(*role),
            UserEmailCondition::VerificationState(state) => {
                UserEmailConditionView::VerificationState(*state)
            },
            UserEmailCondition::VerificationToken(token) => {
                UserEmailConditionView::VerificationToken(token@)
            },
        }
    }
}

impl UserEmailConditionView {
    /// Whether an address meets the condition. One without a token meets no
    /// condition on its token.
    pub open spec fn holds(self, email: UserEmailView) -> bool {
        match self {
            UserEmailConditionView::Role(role) => email.role == role,
            UserEmailConditionView::VerificationState(state) => email.verification_state == state,
            UserEmailConditionView::VerificationToken(token) => email.verification_token == Some(
                token,
            ),
        }
    }
}

impl UserEmailCondition {
    /// Whether an address meets the condition.
    pub fn holds(&self, email: &UserEmail) -> (met: bool)
        ensures
            met == self@.holds(email@),
            met == match *self {
                UserEmailCondition::Role(role) => email.role == role,
                UserEmailCondition::VerificationState(state) => email.verification_state == state,
                UserEmailCondition::VerificationToken(token) => {
                    email.verification_token.deep_view() == Some(token@)
                },
            },
    {
        match self {
            UserEmailCondition::Role(role) => email.role == *role,
            UserEmailCondition::VerificationState(state) => email.verification_state == *state,
            UserEmailCondition::VerificationToken(token) => {
                match &email.verification_token {
                    Some(own) => *own == *token,
                    None => false,
                }
            },
        }
    }
}

/// Asks for users who meet every condition, and for no more of them than the
/// limit.
#[derive(Debug)]
pub struct UserQuery {
    pub conditions: Vec<UserCondition>,
    pub limit: i64,
}

/// What a [`UserQuery`] holds.
#[verifier::ext_equal]
pub struct UserQueryView {
    pub conditions: Seq<UserConditionView>,
    pub limit: int,
}

impl View for UserQuery {
    type V = UserQueryView;

    open spec fn view(&self) -> UserQueryView {
        UserQueryView {
            conditions: self.conditions@.map_values(|condition: UserCondition| condition@),
            limit: self.limit as int,
        }
    }
}

impl UserQueryView {
    /// One user who meets the conditions.
    pub open spec fn one(conditions: Seq<UserConditionView>) -> UserQueryView {
        UserQueryView { conditions, limit: 1 }
    }

    /// Whether a user is asked for.
    pub open spec fn selects(self, user: UserView) -> bool {
        forall|i: int| 0 <= i < self.conditions.len() ==> #[trigger] self.conditions[i].holds(user)
    }
}

impl UserQuery {
    /// Asks for one user who meets the conditions.
    pub fn one(conditions: Vec<UserCondition>) -> (query: UserQuery)
        ensures
            query@ == UserQueryView::one(
                conditions@.map_values(|condition: UserCondition| condition@),
            ),
            query.conditions == conditions,
            query.limit == 1,
    {
        UserQuery { conditions, limit: 1 }
    }

    /// Whether a user is asked for.
    pub fn selects(&self, user: &User) -> (selected: bool)
        ensures
            selected == self@.selects(user@),
            selected <==> forall|i: int|
                0 <= i < self.conditions@.len() ==> (#[trigger] self.conditions@[i])@.holds(user@),
    {
        proof {
            assert forall|i: int| 0 <= i < self.conditions@.len() implies #[trigger]
                self@.conditions[i] == self.conditions@[i]@ by {}
            if self@.selects(user@) {
                assert forall|i: int| 0 <= i < self.conditions@.len() implies (
                #[trigger] self.conditions@[i])@.holds(user@) by {
                    assert(self@.conditions[i].holds(user@));
                }
            }
        }
        for i in 0..self.conditions.len()
            invariant
                forall|j: int| 0 <= j < i ==> #[trigger] self@.conditions[j].holds(user@),
        {
            assert(self@.conditions[i as int] == self.conditions[i as int]@);
            if !self.conditions[i].holds(user) {
                return false;
            }
        }
        true
    }
}

/// Asks for users together with one of their addresses, where the user and the
/// address meet every condition, and for no more such pairs than the limit.
#[derive(Debug)]
pub struct UserEmailQuery {
    pub users: Vec<UserCondition>,
    pub emails: Vec<UserEmailCondition>,
    pub limit: i64,
}

/// What a [`UserEmailQuery`] holds.
#[verifier::ext_equal]
pub struct UserEmailQueryView {
    pub users: Seq<UserConditionView>,
    pub emails: Seq<UserEmailConditionView>,
    pub limit: int,
}

impl View for UserEmailQuery {
    type V = UserEmailQueryView;

    open spec fn view(&self) -> UserEmailQueryView {
        UserEmailQueryView {
            users: self.users@.map_values(|condition: UserCondition| condition@),
            emails: self.emails@.map_values(|condition: UserEmailCondition| condition@),
            limit: self.limit as int,
        }
    }
}

impl UserEmailQueryView {
    /// One pair that meets the conditions.
    pub open spec fn one(
        users: Seq<UserConditionView>,
        emails: Seq<UserEmailConditionView>,
    ) -> UserEmailQueryView {
        UserEmailQueryView { users, emails, limit: 1 }
    }

    /// Whether a pair is asked for: the address is the user's own, and both meet
    /// their conditions.
    pub open spec fn selects(self, user: UserView, email: UserEmailView) -> bool {
        &&& email.user_id == user.id
        &&& forall|i: int| 0 <= i < self.users.len() ==> #[trigger] self.users[i].holds(user)
        &&& forall|i: int| 0 <= i < self.emails.len() ==> #[trigger] self.emails[i].holds(email)
    }
}

impl UserEmailQuery {
    /// Asks for one pair that meets the conditions.
    pub fn one(users: Vec<UserCondition>, emails: Vec<UserEmailCondition>) -> (query:
        UserEmailQuery)
        ensures
            query@ == UserEmailQueryView::one(
                users@.map_values(|condition: UserCondition| condition@),
                emails@.map_values(|condition: UserEmailCondition| condition@),
            ),
            query.users == users,
            query.emails == emails,
            query.limit == 1,
    {
        UserEmailQuery { users, emails, limit: 1 }
    }

    /// Whether a pair is asked for.
    pub fn selects(&self, user: &User, email: &UserEmail) -> (selected: bool)
        ensures
            selected == self@.selects(user@, email@),
            selected <==> {
                &&& email.user_id == user.id
                &&& forall|i: int|
                    0 <= i < self.users@.len() ==> (#[trigger] self.users@[i])@.holds(user@)
                &&& forall|i: int|
                    0 <= i < self.emails@.len() ==> (#[trigger] self.emails@[i])@.holds(email@)
            },
    {
        proof {
            assert forall|i: int| 0 <= i < self.users@.len() implies #[trigger] self@.users[i]
                == self.users@[i]@ by {}
            assert forall|i: int| 0 <= i < self.emails@.len() implies #[trigger] self@.emails[i]
                == self.emails@[i]@ by {}
            if self@.selects(user@, email@) {
                assert forall|i: int| 0 <= i < self.users@.len() implies (
                #[trigger] self.users@[i])@.holds(user@) by {
                    assert(self@.users[i].holds(user@));
                }
                assert forall|i: int| 0 <= i < self.emails@.len() implies (
                #[trigger] self.emails@[i])@.holds(email@) by {
                    assert(self@.emails[i].holds(email@));
                }
            }
        }
        if email.user_id != user.id {
            return false;
        }
        for i in 0..self.users.len()
            invariant
                forall|j: int| 0 <= j < i ==> #[trigger] self@.users[j].holds(user@),
        {
            assert(self@.users[i as int] == self.users[i as int]@);
            if !self.users[i].holds(user) {
                return false;
            }
        }
        for i in 0..self.emails.len()
            invariant
                forall|j: int| 0 <= j < i ==> #[trigger] self@.emails[j].holds(email@),
        {
            assert(self@.emails[i as int] == self.emails[i as int]@);
            if !self.emails[i].holds(email) {
                return false;
            }
        }
        true
    }
}

/// A user meets a condition on a text exactly if the user's own text is that one, and a
/// condition on a UUID or a state alike. What a condition holds is what its view shows.
pub proof fn law_user_condition(user: UserView, text: String, uuid: u128, state: UserState)
    ensures
        UserCondition::Email(text)@.holds(user) <==> user.email == text@,
        UserCondition::Username(text)@.holds(user) <==> user.username == text@,
        UserCondition::Uuid(uuid)@.holds(user) <==> user.uuid == uuid,
        UserCondition::State(state)@.holds(user) <==> user.state == state,
        UserCondition::Email(text)@ == UserConditionView::Email(text@),
        UserCondition::Username(text)@ == UserConditionView::Username(text@),
        UserCondition::Uuid(uuid)@ == UserConditionView::Uuid(uuid),
        UserCondition::State(state)@ == UserConditionView::State(state),
{
}

/// An address meets a condition exactly if its own role, state or token is that one. What
/// a condition holds is what its view shows.
pub proof fn law_user_email_condition(
    email: UserEmailView,
    role: UserEmailRole,
    state: UserEmailVerificationState,
    token: String,
)
    ensures
        UserEmailCondition::Role(role)@.holds(email) <==> email.role == role,
        UserEmailCondition::VerificationState(state)@.holds(email) <==> email.verification_state
            == state,
        UserEmailCondition::VerificationToken(token)@.holds(email) <==> email.verification_token
            == Some(token@),
        UserEmailCondition::Role(role)@ == UserEmailConditionView::Role(role),
        UserEmailCondition::VerificationState(state)@ == UserEmailConditionView::VerificationState(
            state,
        ),
        UserEmailCondition::VerificationToken(token)@ == UserEmailConditionView::VerificationToken(
            token@,
        ),
{
}

/// A query without conditions selects everybody, and one more condition leaves those
/// who meet it. What a query holds is what its view shows.
pub proof fn law_user_query(query: UserQuery, condition: UserConditionView, user: UserView)
    ensures
        query@.limit == query.limit,
        query@.conditions.len() == query.conditions@.len(),
        forall|i: int|
            0 <= i < query.conditions@.len() ==> #[trigger] query@.conditions[i]
                == query.conditions@[i]@,
        (UserQueryView { conditions: seq![], ..query@ }).selects(user),
        (UserQueryView { conditions: query@.conditions.push(condition), ..query@ }).selects(user)
            <==> query@.selects(user) && condition.holds(user),
{
    let longer = UserQueryView { conditions: query@.conditions.push(condition), ..query@ };
    let last = query@.conditions.len() as int;
    if longer.selects(user) {
        assert(longer.conditions[last].holds(user));
        assert forall|i: int| 0 <= i < last implies #[trigger] query@.conditions[i].holds(user) by {
            assert(longer.conditions[i].holds(user));
        }
    }
}

/// A query without conditions selects every user with every address of their own, and
/// one more condition leaves the pairs that meet it.
pub proof fn law_user_email_query(
    query: UserEmailQueryView,
    on_user: UserConditionView,
    on_email: UserEmailConditionView,
    user: UserView,
    email: UserEmailView,
)
    ensures
        (UserEmailQueryView { users: seq![], emails: seq![], ..query }).selects(user, email)
            <==> email.user_id == user.id,
        (UserEmailQueryView { users: query.users.push(on_user), ..query }).selects(user, email)
            <==> query.selects(user, email) && on_user.holds(user),
        (UserEmailQueryView { emails: query.emails.push(on_email), ..query }).selects(user, email)
            <==> query.selects(user, email) && on_email.holds(email),
{
    let users = UserEmailQueryView { users: query.users.push(on_user), ..query };
    let emails = UserEmailQueryView { emails: query.emails.push(on_email), ..query };
    if users.selects(user, email) {
        assert(users.users[query.users.len() as int].holds(user));
        assert forall|i: int| 0 <= i < query.users.len() implies #[trigger] query.users[i].holds(
            user,
        ) by {
            assert(users.users[i].holds(user));
        }
        assert forall|i: int| 0 <= i < query.emails.len() implies #[trigger] query.emails[i].holds(
            email,
        ) by {
            assert(users.emails[i].holds(email));
        }
    }
    if emails.selects(user, email) {
        assert(emails.emails[query.emails.len() as int].holds(email));
        assert forall|i: int| 0 <= i < query.emails.len() implies #[trigger] query.emails[i].holds(
            email,
        ) by {
            assert(emails.emails[i].holds(email));
        }
        assert forall|i: int| 0 <= i < query.users.len() implies #[trigger] query.users[i].holds(
            user,
        ) by {
            assert(emails.users[i].holds(user));
        }
    }
}

/// What a query on users and addresses holds is what its view shows.
pub proof fn law_user_email_query_view(query: UserEmailQuery)
    ensures
        query@.limit == query.limit,
        query@.users.len() == query.users@.len(),
        forall|i: int|
            0 <= i < query.users@.len() ==> #[trigger] query@.users[i] == query.users@[i]@,
        query@.emails.len() == query.emails@.len(),
        forall|i: int|
            0 <= i < query.emails@.len() ==> #[trigger] query@.emails[i] == query.emails@[i]@,
{
}

} // verus!
