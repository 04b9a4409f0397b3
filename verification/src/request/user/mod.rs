//! Who makes a request.
//!
//! A login starts with [`User::from_request`]. As long as it is not done it says
//! what to find out next, and [`Login::step`] takes what was found out.
use crate::model::lookup::{LookupView, ReplyView};
use crate::model::store;
use crate::model::store::Store;
use crate::model::token::ClaimsView;
use crate::model::user::{User, UserView};
use crate::model::user_state::UserState;
use crate::model::user_uuid;
use crate::request::token::TokenType;
use vstd::prelude::*;

pub mod registration;

verus! {

/// What comes of looking for something in a request.
#[derive(Debug)]
pub enum Outcome<S, F> {
    /// It was found.
    Success(S),
    /// The request has to be answered with a failure.
    Failure(F),
    /// Somebody else may know what to do with the request.
    Forward,
}

/// The login of a user `U`, who may be given by reference, for a request that can
/// fail with `F`.
#[derive(Debug)]
pub enum Login<U, F> {
    /// Find out the type of the request's token.
    TokenType,
    /// Find out the authentication token. Its type is known.
    AuthenticationToken(TokenType),
    /// Look for the user whom the authentication token of this type names.
    User(TokenType, String),
    /// The login is over.
    Done(Outcome<U, F>),
}

/// What was found out for a [`Login`].
#[derive(Debug)]
pub enum LoginEvent<U, E, F> {
    /// For [`Login::TokenType`].
    TokenType(Outcome<TokenType, E>),
    /// For [`Login::AuthenticationToken`].
    AuthenticationToken(Outcome<String, F>),
    /// For [`Login::User`].
    User(Option<U>),
}

impl<U, F> Login<U, F> {
    /// How a login goes on. Without a type of token the request is forwarded, and so
    /// it is without a token, unless looking for the token failed: that failure is
    /// the outcome. Without a user the request is forwarded, too. What does not
    /// belong to the present state changes nothing.
    pub open spec fn stepped<E>(self, event: LoginEvent<U, E, F>) -> Login<U, F> {
        match (self, event) {
            (Login::TokenType, LoginEvent::TokenType(token_type)) => match token_type {
                Outcome::Success(token_type) => Login::AuthenticationToken(token_type),
                Outcome::Failure(_) => Login::Done(Outcome::Forward),
                Outcome::Forward => Login::Done(Outcome::Forward),
            },
            (
                Login::AuthenticationToken(token_type),
                LoginEvent::AuthenticationToken(token),
            ) => match token {
                Outcome::Success(token) => Login::User(token_type, token),
                Outcome::Failure(failure) => Login::Done(Outcome::Failure(failure)),
                Outcome::Forward => Login::Done(Outcome::Forward),
            },
            (Login::User(_, _), LoginEvent::User(user)) => match user {
                Some(user) => Login::Done(Outcome::Success(user)),
                None => Login::Done(Outcome::Forward),
            },
            _ => self,
        }
    }

    /// Goes on with what was found out.
    pub fn step<E>(self, event: LoginEvent<U, E, F>) -> (next: Login<U, F>)
        ensures
            next == self.stepped(event),
            match self {
                Login::TokenType => match event {
                    LoginEvent::TokenType(Outcome::Success(token_type)) => next == Login::<
                        U,
                        F,
                    >::AuthenticationToken(token_type),
                    LoginEvent::TokenType(_) => next == Login::<U, F>::Done(Outcome::Forward),
                    _ => next == self,
                },
                Login::AuthenticationToken(token_type) => match event {
                    LoginEvent::AuthenticationToken(Outcome::Success(token)) => next == Login::<
                        U,
                        F,
                    >::User(token_type, token),
                    LoginEvent::AuthenticationToken(Outcome::Failure(failure)) => next == Login::<
                        U,
                        F,
                    >::Done(Outcome::Failure(failure)),
                    LoginEvent::AuthenticationToken(Outcome::Forward) => next == Login::<
                        U,
                        F,
                    >::Done(Outcome::Forward),
                    _ => next == self,
                },
                Login::User(_, _) => match event {
                    LoginEvent::User(Some(user)) => next == Login::<U, F>::Done(
                        Outcome::Success(user),
                    ),
                    LoginEvent::User(None) => next == Login::<U, F>::Done(Outcome::Forward),
                    _ => next == self,
                },
                Login::Done(_) => next == self,
            },
    {
        match self {
            Login::TokenType => match event {
                LoginEvent::TokenType(Outcome::Success(token_type)) => {
                    Login::AuthenticationToken(token_type)
                },
                LoginEvent::TokenType(_) => Login::Done(Outcome::Forward),
                _ => Login::TokenType,
            },
            Login::AuthenticationToken(token_type) => match event {
                LoginEvent::AuthenticationToken(Outcome::Success(token)) => {
                    Login::User(token_type, token)
                },
                LoginEvent::AuthenticationToken(Outcome::Failure(failure)) => {
                    Login::Done(Outcome::Failure(failure))
                },
                LoginEvent::AuthenticationToken(Outcome::Forward) => Login::Done(Outcome::Forward),
                _ => Login::AuthenticationToken(token_type),
            },
            Login::User(token_type, token) => match event {
                LoginEvent::User(Some(user)) => Login::Done(Outcome::Success(user)),
                LoginEvent::User(None) => Login::Done(Outcome::Forward),
                _ => Login::User(token_type, token),
            },
            Login::Done(outcome) => Login::Done(outcome),
        }
    }
}

impl<U, F> Login<U, F> {
    /// Whether the login asked for what an event brings.
    pub open spec fn asks_for<E>(self, event: LoginEvent<U, E, F>) -> bool {
        match event {
            LoginEvent::TokenType(_) => self is TokenType,
            LoginEvent::AuthenticationToken(_) => self is AuthenticationToken,
            LoginEvent::User(_) => self is User,
        }
    }

    /// How many answers a login needs at most before it is over.
    pub open spec fn answers_left(self) -> nat {
        match self {
            Login::TokenType => 3,
            Login::AuthenticationToken(_) => 2,
            Login::User(_, _) => 1,
            Login::Done(_) => 0,
        }
    }
}

impl User {
    /// Starts the login for a request.
    pub fn from_request<U, F>() -> (login: Login<U, F>)
        ensures
            login == Login::<U, F>::TokenType,
    {
        Login::TokenType
    }
}

/// A request is made by a user exactly if it has a token of a known type and the
/// token names that user. It fails exactly if it has a type of token and looking for
/// the token fails, and then with the same failure. In every other case it is
/// forwarded.
pub proof fn law_from_request<U, E, F>(
    token_type: Outcome<TokenType, E>,
    token: Outcome<String, F>,
    user: Option<U>,
)
    ensures
        Login::<U, F>::TokenType.stepped(LoginEvent::TokenType(token_type)).stepped(
            LoginEvent::<U, E, F>::AuthenticationToken(token),
        ).stepped(LoginEvent::<U, E, F>::User(user)) == Login::<U, F>::Done(
            if token_type is Success && token is Success && user is Some {
                Outcome::Success(user->Some_0)
            } else if token_type is Success && token is Failure {
                Outcome::Failure(token->Failure_0)
            } else {
                Outcome::Forward
            },
        ),
{
}

/// Two logins that both come to a token, and for both of which the same user was
/// found, or nobody, end alike, whatever their tokens: with that user, or by being
/// forwarded.
pub proof fn law_same_user_same_login<U, E, F>(
    first: (TokenType, String),
    second: (TokenType, String),
    user: Option<U>,
)
    ensures
        ({
            let login = |token: (TokenType, String)|
                Login::<U, F>::TokenType.stepped(
                    LoginEvent::<U, E, F>::TokenType(Outcome::Success(token.0)),
                ).stepped(
                    LoginEvent::<U, E, F>::AuthenticationToken(Outcome::Success(token.1)),
                ).stepped(LoginEvent::<U, E, F>::User(user));
            &&& login(second) == login(first)
            &&& login(first) == Login::<U, F>::Done(
                match user {
                    Some(user) => Outcome::Success(user),
                    None => Outcome::Forward,
                },
            )
        }),
{
}

/// Where a store does as it is asked, a token that authenticates a UUID logs in an
/// active user of the store with that UUID; the request is forwarded only if there
/// is no such user.
pub proof fn law_login_by_uuid<E, F>(
    store: Store,
    token_type: TokenType,
    token: String,
    subject: Seq<char>,
    uuid: u128,
    reply: ReplyView,
)
    requires
        user_uuid::uuid_of(subject) == Some(uuid),
        store.answers(LookupView::by_claims(ClaimsView::Authentication(subject)), reply),
    ensures
        ({
            let lookup = LookupView::by_claims(ClaimsView::Authentication(subject)).resumed(reply);
            &&& lookup is Done
            &&& match Login::<UserView, F>::User(token_type, token).stepped(
                LoginEvent::<UserView, E, F>::User(lookup->Done_0),
            ) {
                Login::Done(Outcome::Success(user)) => {
                    &&& store.users.contains(user)
                    &&& user.uuid == uuid
                    &&& user.state == UserState::Active
                },
                Login::Done(Outcome::Forward) => forall|user: UserView| #[trigger]
                    store.users.contains(user) ==> !(user.uuid == uuid && user.state
                        == UserState::Active),
                _ => false,
            }
        }),
{
    store::law_find_by_token(store, ClaimsView::Authentication(subject), reply);
}

/// A login looks for the token only once its type is known, and for the user only
/// once the token is known; and then for the user of that very token and type. A
/// login that is over stays as it is.
pub proof fn law_login_order<U, E, F>(login: Login<U, F>, event: LoginEvent<U, E, F>)
    ensures
        login.stepped(event) matches Login::AuthenticationToken(token_type) ==> login
            == login.stepped(event) || (login is TokenType && event == LoginEvent::<U, E, F>::TokenType(
            Outcome::Success(token_type),
        )),
        login.stepped(event) matches Login::User(token_type, token) ==> login == login.stepped(
            event,
        ) || (login == Login::<U, F>::AuthenticationToken(token_type) && event == LoginEvent::<
            U,
            E,
            F,
        >::AuthenticationToken(Outcome::Success(token))),
        login is Done ==> login.stepped(event) == login,
{
}

/// Each step that is given what it asked for goes forward: from the type of the token,
/// whichever of the two it is, to the token, from there to the user of that type and
/// token, and from there to the end. Without a type, a token or a user it goes to the
/// end at once, and fails only with a failure of the token.
pub proof fn law_step_goes_forward<U, E, F>(
    login: Login<U, F>,
    event: LoginEvent<U, E, F>,
    next: Login<U, F>,
)
    requires
        call_ensures(Login::<U, F>::step::<E>, (login, event), next),
        login.asks_for(event),
    ensures
        next == login.stepped(event),
        next.answers_left() < login.answers_left(),
        next is Done || next.answers_left() + 1 == login.answers_left(),
        event matches LoginEvent::TokenType(found) ==> match found {
            Outcome::Success(token_type) => next == Login::<U, F>::AuthenticationToken(token_type),
            _ => next == Login::<U, F>::Done(Outcome::Forward),
        },
        event matches LoginEvent::AuthenticationToken(found) ==> {
            &&& login matches Login::AuthenticationToken(token_type)
            &&& match found {
                Outcome::Success(token) => next == Login::<U, F>::User(token_type, token),
                Outcome::Failure(failure) => next == Login::<U, F>::Done(Outcome::Failure(failure)),
                Outcome::Forward => next == Login::<U, F>::Done(Outcome::Forward),
            }
        },
        event matches LoginEvent::User(found) ==> match found {
            Some(user) => next == Login::<U, F>::Done(Outcome::Success(user)),
            None => next == Login::<U, F>::Done(Outcome::Forward),
        },
{
}

/// An event that the state did not ask for leaves it as it is.
pub proof fn law_step_waits<U, E, F>(
    login: Login<U, F>,
    event: LoginEvent<U, E, F>,
    next: Login<U, F>,
)
    requires
        call_ensures(Login::<U, F>::step::<E>, (login, event), next),
        !login.asks_for(event),
    ensures
        next == login,
        login.stepped(event) == login,
{
}

/// A login asks for one thing at a time, in the order of the type of the token, the
/// token and the user, and for nothing once it is over. So it needs three answers at
/// most.
pub proof fn law_what_login_asks_for<U, E, F>(
    login: Login<U, F>,
    token_type: Outcome<TokenType, E>,
    token: Outcome<String, F>,
    user: Option<U>,
)
    ensures
        login is TokenType <==> login.asks_for(LoginEvent::<U, E, F>::TokenType(token_type)),
        login is AuthenticationToken <==> login.asks_for(
            LoginEvent::<U, E, F>::AuthenticationToken(token),
        ),
        login is User <==> login.asks_for(LoginEvent::<U, E, F>::User(user)),
        login.answers_left() <= 3,
        login.answers_left() == 3 <==> login is TokenType,
        login.answers_left() == 2 <==> login is AuthenticationToken,
        login.answers_left() == 1 <==> login is User,
        login.answers_left() == 0 <==> login is Done,
{
}

/// A login that is started for a request, and given what it asks for as long as it is not
/// over, is over after three answers at most, whatever they are.
pub proof fn law_three_answers<U, E, F>(
    start: Login<U, F>,
    first: LoginEvent<U, E, F>,
    one: Login<U, F>,
    second: LoginEvent<U, E, F>,
    two: Login<U, F>,
    third: LoginEvent<U, E, F>,
    three: Login<U, F>,
)
    requires
        call_ensures(User::from_request::<U, F>, (), start),
        call_ensures(Login::<U, F>::step::<E>, (start, first), one),
        call_ensures(Login::<U, F>::step::<E>, (one, second), two),
        call_ensures(Login::<U, F>::step::<E>, (two, third), three),
        start.asks_for(first),
        one is Done || one.asks_for(second),
        two is Done || two.asks_for(third),
    ensures
        start is TokenType,
        one is AuthenticationToken || one is Done,
        two is User || two is Done,
        three is Done,
{
}

} // verus!
