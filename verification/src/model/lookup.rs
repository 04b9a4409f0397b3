//! Finding users in a store.
//!
//! A lookup starts with one of the functions of [`User`]. As long as it is not
//! done it says what to ask the store, and [`Lookup::resume`] takes the reply.
use crate::model::query::{
    UserCondition, UserConditionView, UserEmailCondition, UserEmailConditionView, UserEmailQuery,
    UserEmailQueryView, UserQuery, UserQueryView,
};
use crate::model::token::{Claims, ClaimsView};
use crate::model::user::{User, UserView};
use crate::model::user_email::{
    UserEmail, UserEmailRole, UserEmailVerificationState, UserEmailView,
};
use crate::model::user_state::UserState;
use crate::model::user_uuid;
use vstd::prelude::*;

verus! {

/// A search for a user.
#[derive(Debug)]
pub enum Lookup {
    /// The search is over.
    Done(Option<User>),
    /// Ask the store for the first user of the query.
    First(UserQuery),
    /// Ask the store for all the pairs of the query: one alone settles the search.
    Sole(UserEmailQuery),
}

/// What a [`Lookup`] holds.
pub enum LookupView {
    Done(Option<UserView>),
    First(UserQueryView),
    Sole(UserEmailQueryView),
}

/// A reply of the store, which may be an error.
#[derive(Debug)]
pub enum Reply<E> {
    /// To [`Lookup::First`].
    First(Result<User, E>),
    /// To [`Lookup::Sole`].
    Pairs(Result<Vec<(User, UserEmail)>, E>),
}

/// What a [`Reply`] holds, without what is wrong where it is an error.
pub enum ReplyView {
    First(Option<UserView>),
    Pairs(Option<Seq<(UserView, UserEmailView)>>),
}

/// A user as the specifications see one.
pub open spec fn view_of_user(user: Option<User>) -> Option<UserView> {
    match user {
        Some(user) => Some(user@),
        None => None,
    }
}

/// The pairs of a reply as the specifications see them, if it is no error.
pub open spec fn view_of_pairs<E>(reply: Result<Vec<(User, UserEmail)>, E>) -> Option<
    Seq<(UserView, UserEmailView)>,
> {
    match reply {
        Ok(pairs) => Some(pairs@.map_values(|pair: (User, UserEmail)| (pair.0@, pair.1@))),
        Err(_) => None,
    }
}

impl View for Lookup {
    type V = LookupView;

    open spec fn view(&self) -> LookupView {
        match self {
            Lookup::Done(user) => LookupView::Done(view_of_user(*user)),
            Lookup::First(query) => LookupView::First(query@),
            Lookup::Sole(query) => LookupView::Sole(query@),
        }
    }
}

impl<E> View for Reply<E> {
    type V = ReplyView;

    open spec fn view(&self) -> ReplyView {
        match self {
            Reply::First(Ok(user)) => ReplyView::First(Some(user@)),
            Reply::First(Err(_)) => ReplyView::First(None),
            Reply::Pairs(pairs) => ReplyView::Pairs(view_of_pairs(*pairs)),
        }
    }
}

impl LookupView {
    /// An active user by email. Nobody is asked for without an email.
    pub open spec fn by_email(email: Seq<char>) -> LookupView {
        if email.len() == 0 {
            LookupView::Done(None)
        } else {
            LookupView::First(
                UserQueryView::one(
                    seq![
                        UserConditionView::Email(email),
                        UserConditionView::State(UserState::Active),
                    ],
                ),
            )
        }
    }

    /// A pending user whose primary email is not verified yet. Nobody is asked for
    /// without an email; which email is given makes no other difference.
    pub open spec fn by_primary_email_in_pending(email: Seq<char>) -> LookupView {
        if email.len() == 0 {
            LookupView::Done(None)
        } else {
            LookupView::Sole(
                UserEmailQueryView::one(
                    seq![UserConditionView::State(UserState::Pending)],
                    seq![
                        UserEmailConditionView::Role(UserEmailRole::Primary),
                        UserEmailConditionView::VerificationState(
                            UserEmailVerificationState::Pending,
                        ),
                    ],
                ),
            )
        }
    }

    /// Whether a text can be looked up as a UUID: it is one, or it is empty.
    pub open spec fn admits_uuid(text: Seq<char>) -> bool {
        text.len() == 0 || user_uuid::uuid_of(text) is Some
    }

    /// An active user by UUID. Nobody is asked for without a UUID.
    pub open spec fn by_uuid(text: Seq<char>) -> LookupView
        recommends
            LookupView::admits_uuid(text),
    {
        if text.len() == 0 {
            LookupView::Done(None)
        } else {
            LookupView::First(
                UserQueryView::one(
                    seq![
                        UserConditionView::Uuid(user_uuid::uuid_of(text).unwrap()),
                        UserConditionView::State(UserState::Active),
                    ],
                ),
            )
        }
    }

    /// The email address that waits for its verification by a token, with its user.
    pub open spec fn verification_query(token: Seq<char>) -> UserEmailQueryView {
        UserEmailQueryView::one(
            seq![],
            seq![
                UserEmailConditionView::VerificationToken(token),
                UserEmailConditionView::VerificationState(UserEmailVerificationState::Pending),
            ],
        )
    }

    /// Whether claims can be looked up.
    pub open spec fn admits_claims(claims: ClaimsView) -> bool {
        claims matches ClaimsView::Authentication(subject) ==> LookupView::admits_uuid(subject)
    }

    /// The user whom a token's claims name.
    pub open spec fn by_claims(claims: ClaimsView) -> LookupView
        recommends
            LookupView::admits_claims(claims),
    {
        match claims {
            ClaimsView::Authentication(subject) => LookupView::by_uuid(subject),
            ClaimsView::Verification(subject) => LookupView::Sole(
                LookupView::verification_query(subject),
            ),
            ClaimsView::Other => LookupView::Done(None),
        }
    }

    /// How a lookup goes on after a reply. An error counts as nothing found, as does
    /// any other number of pairs than one. A reply to another question changes
    /// nothing.
    pub open spec fn resumed(self, reply: ReplyView) -> LookupView {
        match (self, reply) {
            (LookupView::First(_), ReplyView::First(user)) => LookupView::Done(user),
            (LookupView::Sole(_), ReplyView::Pairs(pairs)) => LookupView::Done(
                match LookupView::sole(pairs) {
                    Some(pair) => Some(pair.0),
                    None => None,
                },
            ),
            _ => self,
        }
    }

    /// Whether a lookup finds somebody by a reply.
    pub open spec fn finds(self, reply: ReplyView) -> bool {
        self.resumed(reply) matches LookupView::Done(Some(_))
    }

    /// The only pair of a reply, if it has exactly one.
    pub open spec fn sole(pairs: Option<Seq<(UserView, UserEmailView)>>) -> Option<
        (UserView, UserEmailView),
    > {
        match pairs {
            Some(pairs) => if pairs.len() == 1 {
                Some(pairs[0])
            } else {
                None
            },
            None => None,
        }
    }
}

/// The only pair of a reply, if it has exactly one.
fn sole_pair<E>(reply: Result<Vec<(User, UserEmail)>, E>) -> (pair: Option<(User, UserEmail)>)
    ensures
        match LookupView::sole(view_of_pairs(reply)) {
            Some(sole) => pair matches Some(p) && (p.0@, p.1@) == sole,
            None => pair is None,
        },
        pair == match reply {
            Ok(pairs) => if pairs@.len() == 1 {
                Some(pairs@[0])
            } else {
                None
            },
            Err(_) => None,
        },
{
    match reply {
        Ok(pairs) => {
            let mut pairs = pairs;
            if pairs.len() == 1 {
                pairs.pop()
            } else {
                None
            }
        },
        Err(_) => None,
    }
}

impl Lookup {
    /// Goes on after a reply of the store.
    pub fn resume<E>(self, reply: Reply<E>) -> (next: Lookup)
        ensures
            next@ == self@.resumed(reply@),
            match (self, reply) {
                (Lookup::First(_), Reply::First(Ok(user))) => next == Lookup::Done(Some(user)),
                (Lookup::First(_), Reply::First(Err(_))) => next == Lookup::Done(None),
                (Lookup::Sole(_), Reply::Pairs(Ok(pairs))) => next == Lookup::Done(
                    if pairs@.len() == 1 {
                        Some(pairs@[0].0)
                    } else {
                        None
                    },
                ),
                (Lookup::Sole(_), Reply::Pairs(Err(_))) => next == Lookup::Done(None),
                _ => next == self,
            },
    {
        match self {
            Lookup::First(query) => {
                match reply {
                    Reply::First(Ok(user)) => Lookup::Done(Some(user)),
                    Reply::First(Err(_)) => Lookup::Done(None),
                    Reply::Pairs(_) => Lookup::First(query),
                }
            },
            Lookup::Sole(query) => {
                match reply {
                    Reply::Pairs(pairs) => {
                        match sole_pair(pairs) {
                            Some((user, _)) => Lookup::Done(Some(user)),
                            None => Lookup::Done(None),
                        }
                    },
                    Reply::First(_) => Lookup::Sole(query),
                }
            },
            Lookup::Done(user) => Lookup::Done(user),
        }
    }
}

impl User {
    /// Asks who uses an email: the ids that the store finds go to
    /// [`User::is_unique`].
    pub fn check_email_uniqueness(email: &str) -> (query: UserQuery)
        ensures
            query@ == UserQueryView::one(seq![UserConditionView::Email(email@)]),
            query.limit == 1,
            query.conditions@.len() == 1,
            query.conditions@[0] matches UserCondition::Email(own) && own@ == email@,
    {
        let query = UserQuery::one(vec![UserCondition::Email(email.to_owned())]);
        assert(query@ =~= UserQueryView::one(seq![UserConditionView::Email(email@)]));
        query
    }

    /// Asks who uses a username: the ids that the store finds go to
    /// [`User::is_unique`].
    pub fn check_username_uniqueness(username: &str) -> (query: UserQuery)
        ensures
            query@ == UserQueryView::one(seq![UserConditionView::Username(username@)]),
            query.limit == 1,
            query.conditions@.len() == 1,
            query.conditions@[0] matches UserCondition::Username(own) && own@ == username@,
    {
        let query = UserQuery::one(vec![UserCondition::Username(username.to_owned())]);
        assert(query@ =~= UserQueryView::one(seq![UserConditionView::Username(username@)]));
        query
    }

    /// Whether nobody was found. Where the store gives an error, that is not known,
    /// and the answer is no.
    pub fn is_unique<E>(found: &Result<Vec<i64>, E>) -> (unique: bool)
        ensures
            unique == (found matches Ok(ids) && ids@.len() == 0),
    {
        match found {
            Ok(ids) => ids.len() == 0,
            Err(_) => false,
        }
    }

    /// Looks for an active user by email.
    pub fn find_by_email(email: &str) -> (lookup: Lookup)
        ensures
            lookup@ == LookupView::by_email(email@),
            email@.len() == 0 ==> lookup == Lookup::Done(None),
            email@.len() > 0 ==> {
                &&& lookup matches Lookup::First(query)
                &&& query.limit == 1
                &&& query.conditions@.len() == 2
                &&& query.conditions@[0] matches UserCondition::Email(own)
                &&& own@ == email@
                &&& query.conditions@[1] == UserCondition::State(UserState::Active)
            },
    {
        if email.is_empty() {
            return Lookup::Done(None);
        }
        let query = UserQuery::one(
            vec![UserCondition::Email(email.to_owned()), UserCondition::State(UserState::Active)],
        );
        assert(query@ =~= LookupView::by_email(email@)->First_0);
        Lookup::First(query)
    }

    /// Looks for a pending user whose primary email is not verified yet. The email
    /// must not be empty, but is not compared.
    pub fn find_by_primary_email_in_pending(email: &str) -> (lookup: Lookup)
        ensures
            lookup@ == LookupView::by_primary_email_in_pending(email@),
            email@.len() == 0 ==> lookup == Lookup::Done(None),
            email@.len() > 0 ==> {
                &&& lookup matches Lookup::Sole(query)
                &&& query.limit == 1
                &&& query.users@ == seq![UserCondition::State(UserState::Pending)]
                &&& query.emails@ == seq![
                    UserEmailCondition::Role(UserEmailRole::Primary),
                    UserEmailCondition::VerificationState(UserEmailVerificationState::Pending),
                ]
            },
    {
        if email.is_empty() {
            return Lookup::Done(None);
        }
        let query = UserEmailQuery::one(
            vec![UserCondition::State(UserState::Pending)],
            vec![
                UserEmailCondition::Role(UserEmailRole::Primary),
                UserEmailCondition::VerificationState(UserEmailVerificationState::Pending),
            ],
        );
        assert(query@ =~= LookupView::by_primary_email_in_pending(email@)->Sole_0);
        Lookup::Sole(query)
    }

    /// Looks for an active user by UUID.
    pub fn find_by_uuid(text: &str) -> (lookup: Lookup)
        requires
            LookupView::admits_uuid(text@),
        ensures
            lookup@ == LookupView::by_uuid(text@),
            text@.len() == 0 ==> lookup == Lookup::Done(None),
            user_uuid::uuid_of(text@) matches Some(uuid) ==> {
                &&& lookup matches Lookup::First(query)
                &&& query.limit == 1
                &&& query.conditions@ == seq![
                    UserCondition::Uuid(uuid),
                    UserCondition::State(UserState::Active),
                ]
            },
    {
        User::try_find_by_uuid(text).unwrap()
    }

    /// Looks for an active user by UUID, or gives `None` where the text is not one.
    pub fn try_find_by_uuid(text: &str) -> (lookup: Option<Lookup>)
        ensures
            lookup is Some <==> LookupView::admits_uuid(text@),
            lookup matches Some(lookup) ==> lookup@ == LookupView::by_uuid(text@),
            lookup is Some <==> text@.len() == 0 || user_uuid::uuid_of(text@) is Some,
            text@.len() == 0 ==> lookup == Some(Lookup::Done(None)),
            user_uuid::uuid_of(text@) matches Some(uuid) ==> {
                &&& lookup matches Some(Lookup::First(query))
                &&& query.limit == 1
                &&& query.conditions@ == seq![
                    UserCondition::Uuid(uuid),
                    UserCondition::State(UserState::Active),
                ]
            },
    {
        if text.is_empty() {
            return Some(Lookup::Done(None));
        }
        match user_uuid::uuid_parse(text) {
            Ok(uuid) => {
                let query = UserQuery::one(
                    vec![UserCondition::Uuid(uuid), UserCondition::State(UserState::Active)],
                );
                assert(query@ =~= LookupView::by_uuid(text@)->First_0);
                Some(Lookup::First(query))
            },
            Err(_) => None,
        }
    }

    /// Looks for the user whom a token's claims name: by the UUID, or by the
    /// verification token of an email address.
    pub fn find_by_token(claims: &Claims) -> (lookup: Lookup)
        requires
            LookupView::admits_claims(claims@),
        ensures
            lookup@ == LookupView::by_claims(claims@),
            claims matches Claims::Authentication(subject) ==> subject@.len() == 0 ==> lookup
                == Lookup::Done(None),
            claims matches Claims::Authentication(subject) ==> user_uuid::uuid_of(
                subject@,
            ) matches Some(uuid) ==> {
                &&& lookup matches Lookup::First(query)
                &&& query.limit == 1
                &&& query.conditions@ == seq![
                    UserCondition::Uuid(uuid),
                    UserCondition::State(UserState::Active),
                ]
            },
            claims matches Claims::Verification(subject) ==> {
                &&& lookup matches Lookup::Sole(query)
                &&& query.limit == 1
                &&& query.users@.len() == 0
                &&& query.emails@.len() == 2
                &&& query.emails@[0] matches UserEmailCondition::VerificationToken(token)
                &&& token@ == subject@
                &&& query.emails@[1] == UserEmailCondition::VerificationState(
                    UserEmailVerificationState::Pending,
                )
            },
            claims is Other ==> lookup == Lookup::Done(None),
    {
        User::try_find_by_token(claims).unwrap()
    }

    /// Looks for the user whom a token's claims name, or gives `None` where the
    /// claims should name a UUID and do not.
    pub fn try_find_by_token(claims: &Claims) -> (lookup: Option<Lookup>)
        ensures
            lookup is Some <==> LookupView::admits_claims(claims@),
            lookup matches Some(lookup) ==> lookup@ == LookupView::by_claims(claims@),
            lookup is None <==> {
                &&& claims matches Claims::Authentication(subject)
                &&& subject@.len() > 0
                &&& user_uuid::uuid_of(subject@) is None
            },
            claims matches Claims::Authentication(subject) ==> subject@.len() == 0 ==> lookup
                == Some(Lookup::Done(None)),
            claims matches Claims::Authentication(subject) ==> user_uuid::uuid_of(
                subject@,
            ) matches Some(uuid) ==> {
                &&& lookup matches Some(Lookup::First(query))
                &&& query.limit == 1
                &&& query.conditions@ == seq![
                    UserCondition::Uuid(uuid),
                    UserCondition::State(UserState::Active),
                ]
            },
            claims matches Claims::Verification(subject) ==> {
                &&& lookup matches Some(Lookup::Sole(query))
                &&& query.limit == 1
                &&& query.users@.len() == 0
                &&& query.emails@.len() == 2
                &&& query.emails@[0] matches UserEmailCondition::VerificationToken(token)
                &&& token@ == subject@
                &&& query.emails@[1] == UserEmailCondition::VerificationState(
                    UserEmailVerificationState::Pending,
                )
            },
            claims is Other ==> lookup == Some(Lookup::Done(None)),
    {
        match claims {
            Claims::Authentication(subject) => User::try_find_by_uuid(subject.as_str()),
            Claims::Verification(subject) => {
                Some(
                    Lookup::Sole(User::load_with_user_email_verification_token(subject.as_str())),
                )
            },
            Claims::Other => Some(Lookup::Done(None)),
        }
    }

    /// Asks for the email address that waits for its verification by a token, with
    /// its user: the pairs that the store finds go to
    /// [`User::loaded_with_user_email`].
    pub fn load_with_user_email_verification_token(verification_token: &str) -> (query:
        UserEmailQuery)
        ensures
            query@ == LookupView::verification_query(verification_token@),
            ({
                &&& query.limit == 1
                &&& query.users@.len() == 0
                &&& query.emails@.len() == 2
                &&& query.emails@[0] matches UserEmailCondition::VerificationToken(token)
                &&& token@ == verification_token@
                &&& query.emails@[1] == UserEmailCondition::VerificationState(
                    UserEmailVerificationState::Pending,
                )
            }),
    {
        let query = UserEmailQuery::one(
            vec![],
            vec![
                UserEmailCondition::VerificationToken(verification_token.to_owned()),
                UserEmailCondition::VerificationState(UserEmailVerificationState::Pending),
            ],
        );
        assert(query@ =~= LookupView::verification_query(verification_token@));
        query
    }

    /// The user and the email address that were found, if it is exactly one pair.
    pub fn loaded_with_user_email<E>(reply: Result<Vec<(User, UserEmail)>, E>) -> (loaded: Result<
        (User, UserEmail),
        &'static str,
    >)
        ensures
            match LookupView::sole(view_of_pairs(reply)) {
                Some(sole) => loaded matches Ok(pair) && (pair.0@, pair.1@) == sole,
                None => loaded matches Err(message) && message@ == "not found"@,
            },
            match reply {
                Ok(pairs) => if pairs@.len() == 1 {
                    loaded == Ok::<(User, UserEmail), &'static str>(pairs@[0])
                } else {
                    loaded matches Err(message) && message@ == "not found"@
                },
                Err(_) => loaded matches Err(message) && message@ == "not found"@,
            },
    {
        match sole_pair(reply) {
            Some(pair) => Ok(pair),
            None => Err("not found"),
        }
    }
}

/// Without an email, or without the text of a UUID, nothing is asked and nobody is
/// found. With one, the store is always asked: for one active user with that email, for
/// one active user with that UUID, or for one pending user with an unverified primary
/// address. Of a text that is not empty, only one that is no UUID cannot be looked up.
pub proof fn law_what_is_asked(text: Seq<char>, uuid: u128)
    ensures
        text.len() == 0 ==> {
            &&& LookupView::by_email(text) == LookupView::Done(None)
            &&& LookupView::by_primary_email_in_pending(text) == LookupView::Done(None)
            &&& LookupView::by_uuid(text) == LookupView::Done(None)
        },
        text.len() > 0 ==> {
            &&& LookupView::by_email(text) matches LookupView::First(query)
            &&& query.limit == 1
            &&& query.conditions == seq![
                UserConditionView::Email(text),
                UserConditionView::State(UserState::Active),
            ]
        },
        text.len() > 0 ==> {
            &&& LookupView::by_primary_email_in_pending(text) matches LookupView::Sole(query)
            &&& query.limit == 1
            &&& query.users == seq![UserConditionView::State(UserState::Pending)]
            &&& query.emails == seq![
                UserEmailConditionView::Role(UserEmailRole::Primary),
                UserEmailConditionView::VerificationState(UserEmailVerificationState::Pending),
            ]
        },
        user_uuid::uuid_of(text) == Some(uuid) ==> {
            &&& LookupView::by_uuid(text) matches LookupView::First(query)
            &&& query.limit == 1
            &&& query.conditions == seq![
                UserConditionView::Uuid(uuid),
                UserConditionView::State(UserState::Active),
            ]
        },
        LookupView::admits_uuid(text) <==> text.len() == 0 || user_uuid::uuid_of(text) is Some,
{
}

/// A token that authenticates is looked up as the UUID that it names. One that verifies
/// always has the store asked for one address with that very token whose verification is
/// pending, whatever the token. For any other nothing is asked.
pub proof fn law_what_is_asked_for_claims(subject: Seq<char>)
    ensures
        LookupView::by_claims(ClaimsView::Authentication(subject)) == LookupView::by_uuid(subject),
        ({
            &&& LookupView::by_claims(ClaimsView::Verification(subject)) matches LookupView::Sole(
                query,
            )
            &&& query == LookupView::verification_query(subject)
            &&& query.limit == 1
            &&& query.users.len() == 0
            &&& query.emails == seq![
                UserEmailConditionView::VerificationToken(subject),
                UserEmailConditionView::VerificationState(UserEmailVerificationState::Pending),
            ]
        }),
        LookupView::by_claims(ClaimsView::Other) == LookupView::Done(None),
        LookupView::admits_claims(ClaimsView::Authentication(subject)) <==> LookupView::admits_uuid(
            subject,
        ),
        LookupView::admits_claims(ClaimsView::Verification(subject)),
        LookupView::admits_claims(ClaimsView::Other),
{
}

/// One reply to what was asked ends a lookup: with the first user, if there is one, or
/// with the user of the only pair. Without a user, and with no pair or several, nobody is
/// found. A reply to what was not asked, or to a lookup that is over, changes nothing.
pub proof fn law_resumed(
    first: UserQueryView,
    sole: UserEmailQueryView,
    user: Option<UserView>,
    pair: (UserView, UserEmailView),
    pairs: Option<Seq<(UserView, UserEmailView)>>,
    reply: ReplyView,
)
    ensures
        LookupView::First(first).resumed(ReplyView::First(user)) == LookupView::Done(user),
        LookupView::Sole(sole).resumed(ReplyView::Pairs(Some(seq![pair]))) == LookupView::Done(
            Some(pair.0),
        ),
        pairs is None || pairs->Some_0.len() != 1 ==> LookupView::Sole(sole).resumed(
            ReplyView::Pairs(pairs),
        ) == LookupView::Done(None),
        LookupView::First(first).resumed(ReplyView::Pairs(pairs)) == LookupView::First(first),
        LookupView::Sole(sole).resumed(ReplyView::First(user)) == LookupView::Sole(sole),
        LookupView::Done(user).resumed(reply) == LookupView::Done(user),
        LookupView::sole(Some(seq![pair])) == Some(pair),
        pairs is None || pairs->Some_0.len() != 1 ==> LookupView::sole(pairs) is None,
{
}

/// What a lookup and a reply hold is what their views show.
pub proof fn law_lookup_view<E>(
    user: User,
    error: E,
    first: UserQuery,
    sole: UserEmailQuery,
    pairs: Vec<(User, UserEmail)>,
)
    ensures
        Lookup::Done(None)@ == LookupView::Done(None),
        Lookup::Done(Some(user))@ == LookupView::Done(Some(user@)),
        Lookup::First(first)@ == LookupView::First(first@),
        Lookup::Sole(sole)@ == LookupView::Sole(sole@),
        Reply::<E>::First(Ok(user))@ == ReplyView::First(Some(user@)),
        Reply::<E>::First(Err(error))@ == ReplyView::First(None),
        Reply::<E>::Pairs(Err(error))@ == ReplyView::Pairs(None),
        ({
            &&& Reply::<E>::Pairs(Ok(pairs))@ matches ReplyView::Pairs(Some(shown))
            &&& shown.len() == pairs@.len()
            &&& forall|i: int|
                0 <= i < pairs@.len() ==> #[trigger] shown[i] == (pairs@[i].0@, pairs@[i].1@)
        }),
{
}

} // verus!
