//! What holds of the library together with a store that does as it is asked.
use crate::model::change::UserUpdate;
use crate::model::lookup::{Lookup, LookupView, Reply, ReplyView};
use crate::model::password;
use crate::model::query::{
    UserConditionView, UserEmailQuery, UserEmailQueryView, UserQuery, UserQueryView,
};
use crate::model::token::{Claims, ClaimsView};
use crate::model::user::{NewUserView, User, UserView};
use crate::model::user_email::{
    UserEmail, UserEmailRole, UserEmailVerificationState, UserEmailView,
};
use crate::model::user_reset_password_state::UserResetPasswordState;
use crate::model::user_state::UserState;
use crate::model::user_uuid;
use vstd::prelude::*;

verus! {

/// The users and the email addresses that are stored.
#[verifier::ext_equal]
pub struct Store {
    pub users: Seq<UserView>,
    pub emails: Seq<UserEmailView>,
}

impl Store {
    /// Whether a pair is stored.
    pub open spec fn holds_pair(self, user: UserView, email: UserEmailView) -> bool {
        self.users.contains(user) && self.emails.contains(email)
    }

    /// Whether ids are a right reply to a query: they belong to selected users, they
    /// keep to the limit, and none is missing short of it.
    pub open spec fn answers_ids(self, query: UserQueryView, ids: Seq<i64>) -> bool {
        &&& ids.len() <= query.limit
        &&& forall|i: int|
            0 <= i < ids.len() ==> exists|user: UserView| #[trigger]
                self.users.contains(user) && query.selects(user) && user.id == #[trigger] ids[i]
        &&& ids.len() < query.limit ==> forall|user: UserView| #[trigger]
            self.users.contains(user) && query.selects(user) ==> ids.contains(user.id)
    }

    /// Whether a user is a right reply to a query: a selected one, or none if there
    /// is none.
    pub open spec fn answers_first(self, query: UserQueryView, first: Option<UserView>) -> bool {
        match first {
            Some(user) => self.users.contains(user) && query.selects(user),
            None => forall|user: UserView| #[trigger]
                self.users.contains(user) ==> !query.selects(user),
        }
    }

    /// Whether pairs are a right reply to a query: they are selected, they keep to
    /// the limit, and none is missing short of it.
    pub open spec fn answers_pairs(
        self,
        query: UserEmailQueryView,
        pairs: Seq<(UserView, UserEmailView)>,
    ) -> bool {
        &&& pairs.len() <= query.limit
        &&& forall|i: int|
            0 <= i < pairs.len() ==> {
                let pair = #[trigger] pairs[i];
                self.holds_pair(pair.0, pair.1) && query.selects(pair.0, pair.1)
            }
        &&& pairs.len() < query.limit ==> forall|user: UserView, email: UserEmailView| #[trigger]
            self.holds_pair(user, email) && query.selects(user, email) ==> pairs.contains(
                (user, email),
            )
    }

    /// Whether a reply is a right one to what a lookup asks.
    pub open spec fn answers(self, lookup: LookupView, reply: ReplyView) -> bool {
        match (lookup, reply) {
            (LookupView::First(query), ReplyView::First(first)) => self.answers_first(query, first),
            (LookupView::Sole(query), ReplyView::Pairs(Some(pairs))) => self.answers_pairs(
                query,
                pairs,
            ),
            _ => false,
        }
    }

    /// The store with one more user.
    pub open spec fn with_user(self, user: UserView) -> Store {
        Store { users: self.users.push(user), ..self }
    }

    /// The store after an update.
    pub open spec fn updated(self, update: UserUpdate) -> Store {
        Store { users: self.users.map_values(|user: UserView| update.applied(user)), ..self }
    }

    /// Whether somebody has this email.
    pub open spec fn has_email(self, email: Seq<char>) -> bool {
        exists|user: UserView| #[trigger] self.users.contains(user) && user.email == email
    }

    /// Whether somebody has this username.
    pub open spec fn has_username(self, username: Seq<char>) -> bool {
        exists|user: UserView| #[trigger] self.users.contains(user) && user.username == username
    }
}

/// Whether a user is what a store makes of the values that are stored for a new
/// user.
pub open spec fn is_made_of(user: UserView, values: NewUserView) -> bool {
    &&& user.name == values.name
    &&& user.username == values.username
    &&& user.email == values.email
    &&& user.password == values.password
    &&& user.state == values.state
    &&& user.reset_password_state == values.reset_password_state
}

/// Two conditions select exactly the users who meet both.
proof fn lemma_selects_both(a: UserConditionView, b: UserConditionView, user: UserView)
    ensures
        UserQueryView::one(seq![a, b]).selects(user) <==> a.holds(user) && b.holds(user),
{
    let conditions = UserQueryView::one(seq![a, b]).conditions;
    if UserQueryView::one(seq![a, b]).selects(user) {
        assert(conditions[0].holds(user));
        assert(conditions[1].holds(user));
    }
}

/// One condition selects exactly the users who meet it.
proof fn lemma_selects_one(condition: UserConditionView, user: UserView)
    ensures
        UserQueryView::one(seq![condition]).selects(user) <==> condition.holds(user),
{
    if UserQueryView::one(seq![condition]).selects(user) {
        assert(UserQueryView::one(seq![condition]).conditions[0].holds(user));
    }
}

/// A lookup by email finds an active user of the store who has that email, and
/// finds nobody only if there is no such user.
pub proof fn law_find_by_email(store: Store, email: Seq<char>, reply: ReplyView)
    requires
        store.answers(LookupView::by_email(email), reply),
    ensures
        match LookupView::by_email(email).resumed(reply) {
            LookupView::Done(Some(user)) => {
                &&& store.users.contains(user)
                &&& user.email == email
                &&& user.state == UserState::Active
            },
            LookupView::Done(None) => forall|user: UserView| #[trigger]
                store.users.contains(user) ==> !(user.email == email && user.state
                    == UserState::Active),
            _ => false,
        },
{
    assert forall|user: UserView|
        LookupView::by_email(email)->First_0.selects(user) <==> user.email == email && user.state
            == UserState::Active by {
        lemma_selects_both(
            UserConditionView::Email(email),
            UserConditionView::State(UserState::Active),
            user,
        );
    }
}

/// A lookup by the text of a UUID finds an active user of the store who has that
/// UUID, and finds nobody only if there is no such user.
pub proof fn law_find_by_uuid(store: Store, uuid: u128, text: Seq<char>, reply: ReplyView)
    requires
        user_uuid::uuid_of(text) == Some(uuid),
        store.answers(LookupView::by_uuid(text), reply),
    ensures
        match LookupView::by_uuid(text).resumed(reply) {
            LookupView::Done(Some(user)) => {
                &&& store.users.contains(user)
                &&& user.uuid == uuid
                &&& user.state == UserState::Active
            },
            LookupView::Done(None) => forall|user: UserView| #[trigger]
                store.users.contains(user) ==> !(user.uuid == uuid && user.state
                    == UserState::Active),
            _ => false,
        },
{
    assert forall|user: UserView|
        LookupView::by_uuid(text)->First_0.selects(user) <==> user.uuid == uuid && user.state
            == UserState::Active by {
        lemma_selects_both(
            UserConditionView::Uuid(uuid),
            UserConditionView::State(UserState::Active),
            user,
        );
    }
}

/// Whether a user is pending, and has the address as a primary one that is not
/// verified yet.
pub open spec fn is_unverified_primary(user: UserView, email: UserEmailView) -> bool {
    &&& email.user_id == user.id
    &&& email.role == UserEmailRole::Primary
    &&& email.verification_state == UserEmailVerificationState::Pending
    &&& user.state == UserState::Pending
}

/// A lookup by primary email finds a pending user of the store with a primary email
/// that is not verified yet, and finds nobody only if there is no such user.
pub proof fn law_find_by_primary_email_in_pending(store: Store, email: Seq<char>, reply: ReplyView)
    requires
        store.answers(LookupView::by_primary_email_in_pending(email), reply),
    ensures
        match LookupView::by_primary_email_in_pending(email).resumed(reply) {
            LookupView::Done(Some(user)) => exists|own: UserEmailView| #[trigger]
                store.holds_pair(user, own) && is_unverified_primary(user, own),
            LookupView::Done(None) => forall|user: UserView, own: UserEmailView| #[trigger]
                store.holds_pair(user, own) ==> !is_unverified_primary(user, own),
            _ => false,
        },
{
    let query = LookupView::by_primary_email_in_pending(email)->Sole_0;
    assert forall|user: UserView, own: UserEmailView|
        query.selects(user, own) <==> is_unverified_primary(user, own) by {
        if query.selects(user, own) {
            assert(query.users[0].holds(user));
            assert(query.emails[0].holds(own));
            assert(query.emails[1].holds(own));
        }
    }
    let pairs = reply->Pairs_0.unwrap();
    if pairs.len() == 1 {
        assert(store.holds_pair(pairs[0].0, pairs[0].1));
    }
}

/// Whether an address of a user waits for its verification by a token.
pub open spec fn awaits_verification(
    user: UserView,
    email: UserEmailView,
    token: Seq<char>,
) -> bool {
    &&& email.user_id == user.id
    &&& email.verification_token == Some(token)
    &&& email.verification_state == UserEmailVerificationState::Pending
}

/// A load by verification token gives a user of the store together with an address
/// of that user which waits for its verification by the token, and gives nothing
/// only if there is no such pair.
pub proof fn law_load_with_user_email_verification_token(
    store: Store,
    token: Seq<char>,
    pairs: Seq<(UserView, UserEmailView)>,
)
    requires
        store.answers_pairs(LookupView::verification_query(token), pairs),
    ensures
        match LookupView::sole(Some(pairs)) {
            Some((user, email)) => store.holds_pair(user, email) && awaits_verification(
                user,
                email,
                token,
            ),
            None => forall|user: UserView, email: UserEmailView| #[trigger]
                store.holds_pair(user, email) ==> !awaits_verification(user, email, token),
        },
{
    let query = LookupView::verification_query(token);
    assert forall|user: UserView, email: UserEmailView|
        query.selects(user, email) <==> awaits_verification(user, email, token) by {
        if query.selects(user, email) {
            assert(query.emails[0].holds(email));
            assert(query.emails[1].holds(email));
        }
    }
    if pairs.len() == 1 {
        assert(store.holds_pair(pairs[0].0, pairs[0].1));
    }
}

/// A lookup by claims finds the active user whose UUID an authentication names, or
/// the user with an address that waits for its verification by the token that a
/// verification names. Other claims find nobody, and nothing is asked for them.
pub proof fn law_find_by_token(store: Store, claims: ClaimsView, reply: ReplyView)
    requires
        LookupView::admits_claims(claims),
    ensures
        claims is Other ==> LookupView::by_claims(claims) == LookupView::Done(None),
        store.answers(LookupView::by_claims(claims), reply) ==> match (
            claims,
            LookupView::by_claims(claims).resumed(reply),
        ) {
            (ClaimsView::Authentication(subject), LookupView::Done(Some(user))) => {
                &&& store.users.contains(user)
                &&& user.uuid == user_uuid::uuid_of(subject).unwrap()
                &&& user.state == UserState::Active
            },
            (ClaimsView::Authentication(subject), LookupView::Done(None)) => forall|user: UserView|
             #[trigger]
                store.users.contains(user) ==> !(user.uuid == user_uuid::uuid_of(subject).unwrap()
                    && user.state == UserState::Active),
            (ClaimsView::Verification(subject), LookupView::Done(Some(user))) => exists|
                email: UserEmailView,
            | #[trigger]
                store.holds_pair(user, email) && awaits_verification(user, email, subject),
            (ClaimsView::Verification(subject), LookupView::Done(None)) => forall|
                user: UserView,
                email: UserEmailView,
            | #[trigger]
                store.holds_pair(user, email) ==> !awaits_verification(user, email, subject),
            _ => false,
        },
{
    if store.answers(LookupView::by_claims(claims), reply) {
        match claims {
            ClaimsView::Authentication(subject) => {
                law_find_by_uuid(store, user_uuid::uuid_of(subject).unwrap(), subject, reply);
            },
            ClaimsView::Verification(subject) => {
                law_load_with_user_email_verification_token(
                    store,
                    subject,
                    reply->Pairs_0.unwrap(),
                );
            },
            ClaimsView::Other => {},
        }
    }
}

/// Every question of a lookup has a right reply, whatever the store holds.
pub proof fn law_questions_have_replies(store: Store, lookup: LookupView)
    requires
        !(lookup is Done),
        lookup matches LookupView::Sole(query) ==> query.limit == 1,
    ensures
        exists|reply: ReplyView| #[trigger] store.answers(lookup, reply),
{
    match lookup {
        LookupView::First(query) => {
            if exists|user: UserView| #[trigger]
                store.users.contains(user) && query.selects(user) {
                let user = choose|user: UserView| #[trigger]
                    store.users.contains(user) && query.selects(user);
                assert(store.answers(lookup, ReplyView::First(Some(user))));
            } else {
                assert(store.answers(lookup, ReplyView::First(None)));
            }
        },
        LookupView::Sole(query) => {
            if exists|user: UserView, email: UserEmailView| #[trigger]
                store.holds_pair(user, email) && query.selects(user, email) {
                let (user, email) = choose|user: UserView, email: UserEmailView| #[trigger]
                    store.holds_pair(user, email) && query.selects(user, email);
                assert(store.answers(lookup, ReplyView::Pairs(Some(seq![(user, email)]))));
            } else {
                assert(store.answers(lookup, ReplyView::Pairs(Some(seq![]))));
            }
        },
        LookupView::Done(_) => {},
    }
}

/// The store is asked for every email that is not empty, and one right reply ends the
/// lookup: with an active user who has that email, if the store has one, and with nobody
/// only if it has none.
pub proof fn law_every_email_is_looked_up<E>(
    store: Store,
    email: &str,
    lookup: Lookup,
    reply: Reply<E>,
    end: Lookup,
)
    requires
        email@.len() > 0,
        call_ensures(User::find_by_email, (email,), lookup),
        call_ensures(Lookup::resume::<E>, (lookup, reply), end),
    ensures
        lookup is First,
        exists|right: ReplyView| #[trigger] store.answers(lookup@, right),
        store.answers(lookup@, reply@) ==> match end {
            Lookup::Done(Some(user)) => {
                &&& store.users.contains(user@)
                &&& user.email@ == email@
                &&& user.state == UserState::Active
            },
            Lookup::Done(None) => forall|user: UserView| #[trigger]
                store.users.contains(user) ==> !(user.email == email@ && user.state
                    == UserState::Active),
            _ => false,
        },
{
    law_questions_have_replies(store, lookup@);
    if store.answers(lookup@, reply@) {
        law_find_by_email(store, email@, reply@);
    }
}

/// The store is asked for every text of a UUID, and one right reply ends the lookup:
/// with an active user who has that UUID, if the store has one, and with nobody only if
/// it has none.
pub proof fn law_every_uuid_is_looked_up<E>(
    store: Store,
    text: &str,
    uuid: u128,
    lookup: Option<Lookup>,
    reply: Reply<E>,
    end: Lookup,
)
    requires
        user_uuid::uuid_of(text@) == Some(uuid),
        call_ensures(User::try_find_by_uuid, (text,), lookup),
        lookup is Some ==> call_ensures(Lookup::resume::<E>, (lookup->Some_0, reply), end),
    ensures
        lookup is Some,
        lookup->Some_0 is First,
        exists|right: ReplyView| #[trigger] store.answers(lookup->Some_0@, right),
        store.answers(lookup->Some_0@, reply@) ==> match end {
            Lookup::Done(Some(user)) => {
                &&& store.users.contains(user@)
                &&& user.uuid == uuid
                &&& user.state == UserState::Active
            },
            Lookup::Done(None) => forall|user: UserView| #[trigger]
                store.users.contains(user) ==> !(user.uuid == uuid && user.state
                    == UserState::Active),
            _ => false,
        },
{
    law_questions_have_replies(store, lookup->Some_0@);
    if store.answers(lookup->Some_0@, reply@) {
        law_find_by_uuid(store, uuid, text@, reply@);
    }
}

/// The store is asked for every email that is not empty, and one right reply ends the
/// lookup: with a pending user who has an unverified primary address, if the store has
/// one, and with nobody only if it has none.
pub proof fn law_every_primary_email_is_looked_up<E>(
    store: Store,
    email: &str,
    lookup: Lookup,
    reply: Reply<E>,
    end: Lookup,
)
    requires
        email@.len() > 0,
        call_ensures(User::find_by_primary_email_in_pending, (email,), lookup),
        call_ensures(Lookup::resume::<E>, (lookup, reply), end),
    ensures
        lookup is Sole,
        exists|right: ReplyView| #[trigger] store.answers(lookup@, right),
        store.answers(lookup@, reply@) ==> match end {
            Lookup::Done(Some(user)) => user.state == UserState::Pending && exists|
                own: UserEmailView,
            | #[trigger]
                store.holds_pair(user@, own) && own.user_id == user.id && own.role
                    == UserEmailRole::Primary && own.verification_state
                    == UserEmailVerificationState::Pending,
            Lookup::Done(None) => forall|user: UserView, own: UserEmailView| #[trigger]
                store.holds_pair(user, own) ==> !(own.user_id == user.id && own.role
                    == UserEmailRole::Primary && own.verification_state
                    == UserEmailVerificationState::Pending && user.state == UserState::Pending),
            _ => false,
        },
{
    law_questions_have_replies(store, lookup@);
    if store.answers(lookup@, reply@) {
        law_find_by_primary_email_in_pending(store, email@, reply@);
    }
}

/// The store is asked for every verification token, and one right reply ends the lookup:
/// with a user who has an address that waits for that token, if the store has one, and
/// with nobody only if it has none.
pub proof fn law_every_verification_is_looked_up<E>(
    store: Store,
    subject: String,
    lookup: Option<Lookup>,
    reply: Reply<E>,
    end: Lookup,
)
    requires
        call_ensures(User::try_find_by_token, (&Claims::Verification(subject),), lookup),
        lookup is Some ==> call_ensures(Lookup::resume::<E>, (lookup->Some_0, reply), end),
    ensures
        lookup is Some,
        lookup->Some_0@ == LookupView::Sole(LookupView::verification_query(subject@)),
        exists|right: ReplyView| #[trigger] store.answers(lookup->Some_0@, right),
        store.answers(lookup->Some_0@, reply@) ==> match end {
            Lookup::Done(Some(user)) => exists|email: UserEmailView| #[trigger]
                store.holds_pair(user@, email) && email.user_id == user.id
                    && email.verification_token == Some(subject@) && email.verification_state
                    == UserEmailVerificationState::Pending,
            Lookup::Done(None) => forall|user: UserView, email: UserEmailView| #[trigger]
                store.holds_pair(user, email) ==> !(email.user_id == user.id
                    && email.verification_token == Some(subject@) && email.verification_state
                    == UserEmailVerificationState::Pending),
            _ => false,
        },
{
    let claims = ClaimsView::Verification(subject@);
    assert(Claims::Verification(subject)@ == claims);
    law_questions_have_replies(store, lookup->Some_0@);
    if store.answers(lookup->Some_0@, reply@) {
        law_find_by_token(store, claims, reply@);
    }
}

/// A token that authenticates is looked up as the UUID that it names, and one that
/// neither authenticates nor verifies is not looked up.
pub proof fn law_other_tokens(
    subject: String,
    by_token: Option<Lookup>,
    other: Option<Lookup>,
)
    requires
        call_ensures(User::try_find_by_token, (&Claims::Authentication(subject),), by_token),
        call_ensures(User::try_find_by_token, (&Claims::Other,), other),
        subject@.len() == 0 || user_uuid::uuid_of(subject@) is Some,
    ensures
        by_token matches Some(lookup) && lookup@ == LookupView::by_uuid(subject@),
        subject@.len() == 0 ==> by_token == Some(Lookup::Done(None)),
        other == Some(Lookup::Done(None)),
{
    assert(Claims::Authentication(subject)@ == ClaimsView::Authentication(subject@));
}

/// A lookup that cannot be refused asks what the same lookup asks that can.
pub proof fn law_find_as_tried(
    text: &str,
    by_uuid: Lookup,
    tried_uuid: Option<Lookup>,
    claims: &Claims,
    by_token: Lookup,
    tried_token: Option<Lookup>,
)
    requires
        text@.len() == 0 || user_uuid::uuid_of(text@) is Some,
        claims matches Claims::Authentication(subject) ==> subject@.len() == 0
            || user_uuid::uuid_of(subject@) is Some,
        call_ensures(User::find_by_uuid, (text,), by_uuid),
        call_ensures(User::try_find_by_uuid, (text,), tried_uuid),
        call_ensures(User::find_by_token, (claims,), by_token),
        call_ensures(User::try_find_by_token, (claims,), tried_token),
    ensures
        tried_uuid matches Some(tried) && tried@ == by_uuid@,
        tried_token matches Some(tried) && tried@ == by_token@,
{
}

/// Loading by a verification token always asks the store for that token, and gives the
/// pair of the store whose address waits for it, or says that it was not found, which
/// comes only if there is no such pair or the store gives an error.
pub proof fn law_every_verification_is_loaded<E>(
    store: Store,
    token: &str,
    query: UserEmailQuery,
    reply: Result<Vec<(User, UserEmail)>, E>,
    loaded: Result<(User, UserEmail), &'static str>,
)
    requires
        call_ensures(User::load_with_user_email_verification_token, (token,), query),
        call_ensures(User::loaded_with_user_email::<E>, (reply,), loaded),
        store.answers(LookupView::Sole(query@), Reply::Pairs(reply)@),
    ensures
        match loaded {
            Ok((user, email)) => {
                &&& store.users.contains(user@)
                &&& store.emails.contains(email@)
                &&& email.user_id == user.id
                &&& email.verification_token.deep_view() == Some(token@)
                &&& email.verification_state == UserEmailVerificationState::Pending
            },
            Err(message) => message@ == "not found"@ && forall|
                user: UserView,
                email: UserEmailView,
            | #[trigger]
                store.holds_pair(user, email) ==> !(email.user_id == user.id
                    && email.verification_token == Some(token@) && email.verification_state
                    == UserEmailVerificationState::Pending),
        },
{
    let pairs = Reply::Pairs(reply)@->Pairs_0.unwrap();
    law_load_with_user_email_verification_token(store, token@, pairs);
}

/// Where the store gives no error, an email is found unique exactly if nobody in the
/// store has it; where it gives one, the answer is no.
pub proof fn law_email_is_unique<E>(
    store: Store,
    email: &str,
    query: UserQuery,
    found: &Result<Vec<i64>, E>,
    unique: bool,
)
    requires
        call_ensures(User::check_email_uniqueness, (email,), query),
        call_ensures(User::is_unique::<E>, (found,), unique),
        found matches Ok(ids) ==> store.answers_ids(query@, ids@),
    ensures
        found is Err ==> !unique,
        found is Ok ==> (unique <==> forall|user: UserView| #[trigger]
            store.users.contains(user) ==> user.email != email@),
{
    if let Ok(ids) = found {
        law_check_email_uniqueness(store, email@, ids@);
    }
}

/// Where the store gives no error, a username is found unique exactly if nobody in the
/// store has it; where it gives one, the answer is no.
pub proof fn law_username_is_unique<E>(
    store: Store,
    username: &str,
    query: UserQuery,
    found: &Result<Vec<i64>, E>,
    unique: bool,
)
    requires
        call_ensures(User::check_username_uniqueness, (username,), query),
        call_ensures(User::is_unique::<E>, (found,), unique),
        found matches Ok(ids) ==> store.answers_ids(query@, ids@),
    ensures
        found is Err ==> !unique,
        found is Ok ==> (unique <==> forall|user: UserView| #[trigger]
            store.users.contains(user) ==> user.username != username@),
{
    if let Ok(ids) = found {
        law_check_username_uniqueness(store, username@, ids@);
    }
}

/// An email is unique exactly if nobody in the store has it, whatever their state.
pub proof fn law_check_email_uniqueness(store: Store, email: Seq<char>, ids: Seq<i64>)
    requires
        store.answers_ids(UserQueryView::one(seq![UserConditionView::Email(email)]), ids),
    ensures
        ids.len() == 0 <==> !store.has_email(email),
{
    let condition = UserConditionView::Email(email);
    assert forall|user: UserView|
        UserQueryView::one(seq![condition]).selects(user) <==> user.email == email by {
        lemma_selects_one(condition, user);
    }
    if ids.len() > 0 {
        let user = choose|user: UserView| #[trigger]
            store.users.contains(user) && user.email == email && user.id == ids[0];
        assert(store.users.contains(user));
    }
}

/// A username is unique exactly if nobody in the store has it, whatever their state.
pub proof fn law_check_username_uniqueness(store: Store, username: Seq<char>, ids: Seq<i64>)
    requires
        store.answers_ids(UserQueryView::one(seq![UserConditionView::Username(username)]), ids),
    ensures
        ids.len() == 0 <==> !store.has_username(username),
{
    let condition = UserConditionView::Username(username);
    assert forall|user: UserView|
        UserQueryView::one(seq![condition]).selects(user) <==> user.username == username by {
        lemma_selects_one(condition, user);
    }
    if ids.len() > 0 {
        let user = choose|user: UserView| #[trigger]
            store.users.contains(user) && user.username == username && user.id == ids[0];
        assert(store.users.contains(user));
    }
}

/// A new user is stored with their own name, username, email and password, as a pending
/// one for whom no reset of the password was ever asked for, whatever states they had.
/// Their email and their username are taken
/// from then on, but a lookup by any email or by any UUID has the same right replies
/// as before.
pub proof fn law_insert(
    store: Store,
    new: NewUserView,
    user: UserView,
    email: Seq<char>,
    uuid: Seq<char>,
    reply: ReplyView,
)
    requires
        is_made_of(user, new.stored()),
    ensures
        user.state == UserState::Pending,
        user.reset_password_state == UserResetPasswordState::Never,
        user.name == new.name,
        user.username == new.username,
        user.email == new.email,
        user.password == new.password,
        store.with_user(user).has_email(new.email),
        store.with_user(user).has_username(new.username),
        store.with_user(user).answers(LookupView::by_email(email), reply) == store.answers(
            LookupView::by_email(email),
            reply,
        ),
        store.with_user(user).answers(LookupView::by_uuid(uuid), reply) == store.answers(
            LookupView::by_uuid(uuid),
            reply,
        ),
{
    let after = store.with_user(user);
    assert(after.users[store.users.len() as int] == user);
    assert(after.users.contains(user));
    assert forall|other: UserView|
        #![trigger after.users.contains(other)]
        #![trigger store.users.contains(other)]
        after.users.contains(other) <==> store.users.contains(other) || other == user by {
        if store.users.contains(other) {
            let i = choose|i: int| 0 <= i < store.users.len() && store.users[i] == other;
            assert(after.users[i] == other);
        }
    }
    let active = UserConditionView::State(UserState::Active);
    lemma_selects_both(UserConditionView::Email(email), active, user);
    lemma_selects_both(
        UserConditionView::Uuid(user_uuid::uuid_of(uuid).unwrap()),
        active,
        user,
    );
}

/// Whether nobody else in the store has the user's email.
pub open spec fn is_alone_with_email(store: Store, user: UserView) -> bool {
    forall|other: UserView| #[trigger]
        store.users.contains(other) && other.email == user.email ==> other == user
}

/// Whether nobody else in the store has the user's UUID.
pub open spec fn is_alone_with_uuid(store: Store, user: UserView) -> bool {
    forall|other: UserView| #[trigger]
        store.users.contains(other) && other.uuid == user.uuid ==> other == user
}

/// Activating a user changes nothing but the state of the user with that id. From
/// then on a lookup by their email, or by the URN that the activation gives, finds
/// somebody: the activated user, where nobody else has that email, or that UUID.
pub proof fn law_activate(store: Store, user: UserView, reply: ReplyView)
    requires
        store.users.contains(user),
    ensures
        ({
            let after = store.updated(UserUpdate { id: user.id, state: UserState::Active });
            let by_email = LookupView::by_email(user.email);
            let by_uuid = LookupView::by_uuid(user_uuid::urn(user.uuid));
            let active = UserView { state: UserState::Active, ..user };
            &&& after.emails == store.emails
            &&& after.users.len() == store.users.len()
            &&& forall|i: int|
                0 <= i < store.users.len() ==> #[trigger] after.users[i] == if store.users[i].id
                    == user.id {
                    UserView { state: UserState::Active, ..store.users[i] }
                } else {
                    store.users[i]
                }
            &&& after.answers(by_email, reply) ==> by_email.finds(reply)
            &&& after.answers(by_uuid, reply) ==> by_uuid.finds(reply)
            &&& after.answers(by_email, reply) && is_alone_with_email(store, user)
                ==> by_email.resumed(reply) == LookupView::Done(Some(active))
            &&& after.answers(by_uuid, reply) && is_alone_with_uuid(store, user)
                ==> by_uuid.resumed(reply) == LookupView::Done(Some(active))
        }),
{
    let update = UserUpdate { id: user.id, state: UserState::Active };
    let after = store.updated(update);
    let i = choose|i: int| 0 <= i < store.users.len() && store.users[i] == user;
    let active = UserView { state: UserState::Active, ..user };
    assert(after.users[i] == active);
    assert(after.users.contains(active));
    assert forall|found: UserView| #[trigger] after.users.contains(found) implies exists|
        before: UserView,
    | #[trigger]
        store.users.contains(before) && found == update.applied(before) by {
        let j = choose|j: int| 0 <= j < after.users.len() && after.users[j] == found;
        assert(store.users.contains(store.users[j]));
    }
    user_uuid::law_text_gives_back_uuid(user.uuid);
    if after.answers(LookupView::by_email(user.email), reply) {
        law_find_by_email(after, user.email, reply);
    }
    if after.answers(LookupView::by_uuid(user_uuid::urn(user.uuid)), reply) {
        law_find_by_uuid(after, user.uuid, user_uuid::urn(user.uuid), reply);
    }
}

/// A password that was set on a new user is accepted of the user that is stored, and
/// any other password is given a verdict exactly if it is without NUL.
pub proof fn law_password_is_accepted(
    new: NewUserView,
    password: Seq<char>,
    user: UserView,
    other: Seq<char>,
)
    requires
        password::is_encryption_of(new.password, password),
        is_made_of(user, new.stored()),
    ensures
        password::password_verdict(user.password, password) == Some(true),
        password::password_verdict(user.password, other) is Some <==> !other.contains('\0'),
{
}

} // verus!
