//! Users against a store that is held in memory.
use accounts::model::change::{UserInsert, UserUpdate};
use accounts::model::lookup::{Lookup, Reply};
use accounts::model::password::PasswordError;
use accounts::model::query::{UserEmailQuery, UserQuery};
use accounts::model::token::Claims;
use accounts::model::user::{NewUser, User};
use accounts::model::user_email::{UserEmail, UserEmailRole, UserEmailVerificationState};
use accounts::model::user_reset_password_state::UserResetPasswordState;
use accounts::model::user_state::UserState;
use accounts::request::user::registration::UserRegistration;
use chrono::{NaiveDate, NaiveDateTime};
use uuid::Uuid;

fn at(day: u32, hour: u32, minute: u32, second: u32) -> NaiveDateTime {
    NaiveDate::from_ymd_opt(2019, 7, day)
        .unwrap()
        .and_hms_opt(hour, minute, second)
        .unwrap()
}

fn fixture(key: &str) -> User {
    let (id, name, state, time) = match key {
        "oswald" => (1, "Oswald", UserState::Active, at(7, 7, 20, 15)),
        "weenie" => (2, "Weenie", UserState::Active, at(7, 7, 20, 15)),
        "hennry" => (3, "Hennry the Penguin", UserState::Pending, at(8, 10, 3, 9)),
        _ => unreachable!(),
    };
    User {
        id,
        uuid: Uuid::new_v4().as_u128(),
        name: Some(name.to_string()),
        username: key.to_string(),
        email: format!("{}@example.org", key),
        password: b"Pa$$w0rd".to_vec(),
        state,
        reset_password_state: UserResetPasswordState::Never,
        reset_password_token: None,
        reset_password_token_expires_at: None,
        reset_password_token_granted_at: None,
        created_at: time,
        updated_at: time,
    }
}

fn address(
    user: &User,
    role: UserEmailRole,
    verification_state: UserEmailVerificationState,
    verification_token: Option<&str>,
) -> UserEmail {
    UserEmail {
        user_id: user.id,
        email: Some(user.email.clone()),
        role,
        verification_state,
        verification_token: verification_token.map(|token| token.to_string()),
    }
}

/// The error of a store.
#[derive(Debug)]
struct NotFound;

/// A store that does as it is asked.
struct Memory {
    users: Vec<User>,
    emails: Vec<UserEmail>,
}

impl Memory {
    fn new() -> Memory {
        Memory { users: Vec::new(), emails: Vec::new() }
    }

    fn with(users: &[&User]) -> Memory {
        Memory { users: users.iter().map(|user| (*user).clone()).collect(), emails: Vec::new() }
    }

    fn select(&self, query: &UserQuery) -> Vec<User> {
        self.users
            .iter()
            .filter(|user| query.selects(user))
            .take(query.limit as usize)
            .cloned()
            .collect()
    }

    fn select_pairs(&self, query: &UserEmailQuery) -> Vec<(User, UserEmail)> {
        let mut pairs = Vec::new();
        for user in &self.users {
            for email in &self.emails {
                if query.selects(user, email) && pairs.len() < query.limit as usize {
                    pairs.push((user.clone(), email.clone()));
                }
            }
        }
        pairs
    }

    fn is_unique(&self, query: &UserQuery) -> bool {
        let ids = self.select(query).iter().map(|user| user.id).collect();
        User::is_unique::<NotFound>(&Ok(ids))
    }

    fn find(&self, lookup: Lookup) -> Option<User> {
        let mut lookup = lookup;
        loop {
            let reply: Reply<NotFound> = match &lookup {
                Lookup::Done(_) => break,
                Lookup::First(query) => {
                    let first = self.select(query).into_iter().next();
                    Reply::First(first.ok_or(NotFound))
                },
                Lookup::Sole(query) => Reply::Pairs(Ok(self.select_pairs(query))),
            };
            lookup = lookup.resume(reply);
        }
        match lookup {
            Lookup::Done(user) => user,
            _ => unreachable!(),
        }
    }

    fn insert(&mut self, values: UserInsert) -> Result<User, NotFound> {
        let user = User {
            id: self.users.len() as i64 + 1,
            uuid: Uuid::new_v4().as_u128(),
            name: values.name,
            username: values.username,
            email: values.email,
            password: values.password,
            state: values.state,
            reset_password_state: values.reset_password_state,
            reset_password_token: None,
            reset_password_token_expires_at: None,
            reset_password_token_granted_at: None,
            created_at: at(9, 0, 0, 0),
            updated_at: at(9, 0, 0, 0),
        };
        self.users.push(user.clone());
        Ok(user)
    }

    fn update(&mut self, update: UserUpdate) -> Result<User, NotFound> {
        match self.users.iter_mut().find(|user| user.id == update.id) {
            Some(user) => {
                user.state = update.state;
                Ok(user.clone())
            },
            None => Err(NotFound),
        }
    }
}

#[test]
fn test_new_user_format() {
    let u = NewUser {
        name: Some("Hennry the Penguin".to_string()),
        username: "hennry".to_string(),
        email: "hennry@example.org".to_string(),
        password: b"password".to_vec(),
        state: UserState::Pending,
        reset_password_state: UserResetPasswordState::Never,
    };

    assert_eq!(u.to_string(), "<NewUser pending>");
}

#[test]
fn test_new_user_default() {
    let u = NewUser { ..Default::default() };

    assert_eq!(u.name, None);
    assert_eq!(u.username, "".to_string());
    assert_eq!(u.email, "".to_string());
    assert_eq!(u.password, Vec::new() as Vec<u8>);
    assert_eq!(u.state, UserState::Pending);
    assert_eq!(u.reset_password_state, UserResetPasswordState::Never);
}

#[test]
fn test_new_user_from() {
    let data = UserRegistration {
        name: Some("Hennry the Penguin".to_string()),
        username: "hennry".to_string(),
        email: "hennry@example.org".to_string(),
        password: "password".to_string(),
    };

    let u = NewUser::from(&data);
    assert_eq!(u.name, data.name);
    assert_eq!(u.username, data.username);
    assert_eq!(u.email, data.email);
    assert_eq!(u.password, "".to_string().as_bytes().to_vec());
    assert_eq!(u.state, UserState::Pending);
    assert_eq!(u.reset_password_state, UserResetPasswordState::Never);
}

#[test]
fn test_user_format() {
    let user = fixture("hennry");
    assert_eq!(user.to_string(), format!("<User {}>", Uuid::from_u128(user.uuid)));
}

#[test]
fn test_check_email_uniqueness() {
    let u = fixture("oswald");
    let store = Memory::with(&[&u]);

    assert!(!store.is_unique(&User::check_email_uniqueness(&u.email)));
    assert!(store.is_unique(&User::check_email_uniqueness("oswald.new@example.org")));
}

#[test]
fn test_check_username_uniqueness() {
    let u = fixture("hennry");
    let store = Memory::with(&[&u]);

    assert!(!store.is_unique(&User::check_username_uniqueness(&u.username)));
    assert!(store.is_unique(&User::check_username_uniqueness("another")));
}

#[test]
fn test_find_by_primary_email_in_pending_unknown() {
    let store = Memory::new();
    let result = store.find(User::find_by_primary_email_in_pending("unknown@example.org"));
    assert!(result.is_none());
}

#[test]
fn test_find_by_primary_email_in_pending_user_email_role_is_general() {
    let u = fixture("hennry");
    assert_eq!(u.state, UserState::Pending);

    let mut store = Memory::with(&[&u]);
    let user_email =
        address(&u, UserEmailRole::General, UserEmailVerificationState::Pending, None);
    store.emails.push(user_email.clone());

    let result =
        store.find(User::find_by_primary_email_in_pending(&user_email.email.unwrap()));
    assert!(result.is_none());
}

#[test]
fn test_find_by_primary_email_in_pending_user_email_verification_state_is_done() {
    let u = fixture("hennry");
    assert_eq!(u.state, UserState::Pending);

    let mut store = Memory::with(&[&u]);
    let user_email = address(&u, UserEmailRole::Primary, UserEmailVerificationState::Done, None);
    store.emails.push(user_email.clone());

    let result =
        store.find(User::find_by_primary_email_in_pending(&user_email.email.unwrap()));
    assert!(result.is_none());
}

#[test]
fn test_find_by_primary_email_in_pending_user_state_is_active() {
    let u = fixture("oswald");
    assert_eq!(u.state, UserState::Active);

    let mut store = Memory::with(&[&u]);
    let user_email =
        address(&u, UserEmailRole::Primary, UserEmailVerificationState::Pending, None);
    store.emails.push(user_email.clone());

    let result =
        store.find(User::find_by_primary_email_in_pending(&user_email.email.unwrap()));
    assert!(result.is_none());
}

#[test]
fn test_find_by_primary_email_in_pending() {
    let u = fixture("hennry");
    assert_eq!(u.state, UserState::Pending);

    let mut store = Memory::with(&[&u]);
    let user_email =
        address(&u, UserEmailRole::Primary, UserEmailVerificationState::Pending, None);
    store.emails.push(user_email.clone());

    let result =
        store.find(User::find_by_primary_email_in_pending(&user_email.email.unwrap()));
    assert!(result.is_some());

    assert_eq!(result.unwrap().id, u.id);
}

#[test]
fn test_find_by_email_unknown() {
    let store = Memory::new();
    let result = store.find(User::find_by_email("unknown@example.org"));
    assert!(result.is_none());
}

#[test]
fn test_find_by_email_user_state_is_pending() {
    let u = fixture("hennry");
    assert_eq!(u.state, UserState::Pending);

    let store = Memory::with(&[&u]);
    let result = store.find(User::find_by_email(&u.email));
    assert!(result.is_none());
}

#[test]
fn test_find_by_email() {
    let u = fixture("oswald");
    assert_eq!(u.state, UserState::Active);

    let store = Memory::with(&[&u]);
    let result = store.find(User::find_by_email(&u.email));
    assert!(result.is_some());

    let user = result.unwrap();
    assert_eq!(user.email, u.email);
}

#[test]
fn test_find_by_uuid() {
    let store = Memory::new();
    let result = store.find(User::find_by_uuid(&Uuid::nil().to_string()));
    assert!(result.is_none());

    let u = fixture("hennry");
    let store = Memory::with(&[&u]);
    let uuid = Uuid::from_u128(u.uuid);
    let result = store.find(User::find_by_uuid(&uuid.to_string()));
    assert!(result.is_none());

    let u = fixture("weenie");
    let store = Memory::with(&[&u]);
    let uuid = Uuid::from_u128(u.uuid);
    let result = store.find(User::find_by_uuid(&uuid.to_string()));
    assert!(result.is_some());

    let user = result.unwrap();
    assert_eq!(Uuid::from_u128(user.uuid), uuid);
}

#[test]
fn test_insert() {
    let mut store = Memory::new();
    let mut u = NewUser {
        name: Some("Johnny Snowman".to_string()),
        username: "johnny".to_string(),
        email: "johnny@example.org".to_string(),

        ..Default::default()
    };
    u.set_password("password").unwrap();
    let result = User::inserted(store.insert(User::insert(&u)));
    assert!(result.is_some());

    let rows_count = store.users.len() as i64;
    assert_eq!(1, rows_count);
}

#[test]
fn test_new_user_format_active() {
    let u = NewUser { state: UserState::Active, ..Default::default() };
    assert_eq!(u.to_string(), "<NewUser active>");
}

#[test]
fn test_user_format_exact() {
    let mut user = fixture("oswald");
    user.uuid = 0x67e5_5044_10b1_426f_9247_bb68_0e5f_e0c8;
    assert_eq!(user.to_string(), "<User 67e55044-10b1-426f-9247-bb680e5fe0c8>");
}

#[test]
fn test_clone_keeps_the_user() {
    let user = fixture("weenie");
    assert_eq!(format!("{:?}", user.clone()), format!("{:?}", user));
}

#[test]
fn test_uniqueness_is_not_known_on_error() {
    assert!(!User::is_unique(&Err(NotFound)));
    assert!(!User::is_unique::<NotFound>(&Ok(vec![1])));
    assert!(User::is_unique::<NotFound>(&Ok(vec![])));
}

#[test]
fn test_empty_texts_ask_nothing() {
    assert!(matches!(User::find_by_email(""), Lookup::Done(None)));
    assert!(matches!(User::find_by_primary_email_in_pending(""), Lookup::Done(None)));
    assert!(matches!(User::find_by_uuid(""), Lookup::Done(None)));
}

#[test]
fn test_lookup_ends_without_a_user_on_error() {
    let lookup = User::find_by_email("oswald@example.org");
    assert!(matches!(lookup.resume(Reply::First(Err(NotFound))), Lookup::Done(None)));

    let lookup = User::find_by_primary_email_in_pending("oswald@example.org");
    assert!(matches!(lookup.resume(Reply::Pairs(Err(NotFound))), Lookup::Done(None)));
}

#[test]
fn test_lookup_takes_one_pair_only() {
    let u = fixture("hennry");
    let email = address(&u, UserEmailRole::Primary, UserEmailVerificationState::Pending, None);
    let pairs = vec![(u.clone(), email.clone()), (u.clone(), email.clone())];

    let lookup = User::find_by_primary_email_in_pending(&u.email);
    let reply: Reply<NotFound> = Reply::Pairs(Ok(pairs));
    assert!(matches!(lookup.resume(reply), Lookup::Done(None)));
}

#[test]
fn test_lookup_ignores_a_reply_to_another_question() {
    let u = fixture("oswald");
    let lookup = User::find_by_email(&u.email);
    let reply: Reply<NotFound> = Reply::Pairs(Ok(vec![]));
    assert!(matches!(lookup.resume(reply), Lookup::First(_)));

    let lookup = User::find_by_primary_email_in_pending(&u.email);
    let reply: Reply<NotFound> = Reply::First(Ok(u.clone()));
    assert!(matches!(lookup.resume(reply), Lookup::Sole(_)));

    let done = Lookup::Done(Some(u.clone()));
    let reply: Reply<NotFound> = Reply::First(Err(NotFound));
    assert!(matches!(done.resume(reply), Lookup::Done(Some(_))));
}

#[test]
fn test_find_by_uuid_reads_every_form() {
    let mut u = fixture("oswald");
    u.uuid = 0x67e5_5044_10b1_426f_9247_bb68_0e5f_e0c8;
    let store = Memory::with(&[&u]);
    for text in [
        "67e5504410b1426f9247bb680e5fe0c8",
        "67E55044-10B1-426F-9247-BB680E5FE0C8",
        "urn:uuid:67e55044-10b1-426f-9247-bb680e5fe0c8",
    ] {
        let found = store.find(User::try_find_by_uuid(text).unwrap()).unwrap();
        assert_eq!(found.id, u.id);
    }
}

#[test]
fn test_find_by_uuid_refuses_other_texts() {
    for text in [
        "not a uuid",
        "67e5504410b1426f9247bb680e5fe0cg",
        "67e55044-10b1-426f-9247-bb680e5fe0c",
        "67e55044x10b1-426f-9247-bb680e5fe0c8",
        "{67e55044-10b1-426f-9247-bb680e5fe0c8}",
        "urn:uuid:67e5504410b1426f9247bb680e5fe0c8",
        "URN:UUID:67e55044-10b1-426f-9247-bb680e5fe0c8",
        "67e5-504410b1-426f-9247-bb680e5fe0c8",
        "231231212212423424324323477343246663",
        "67e5504410b1426f9247bb680e5fe0é",
    ] {
        assert!(User::try_find_by_uuid(text).is_none());
        assert!(User::try_find_by_token(&Claims::Authentication(text.to_string())).is_none());
    }
}

#[test]
fn test_find_by_token() {
    let oswald = fixture("oswald");
    let hennry = fixture("hennry");
    let mut store = Memory::with(&[&oswald, &hennry]);
    store.emails.push(address(
        &hennry,
        UserEmailRole::Primary,
        UserEmailVerificationState::Pending,
        Some("verify-me"),
    ));

    let uuid = Uuid::from_u128(oswald.uuid).to_string();
    let found = store.find(User::find_by_token(&Claims::Authentication(uuid)));
    assert_eq!(found.unwrap().id, oswald.id);

    let uuid = Uuid::from_u128(hennry.uuid).to_string();
    let found = store.find(User::find_by_token(&Claims::Authentication(uuid)));
    assert!(found.is_none());

    let found = store.find(User::find_by_token(&Claims::Verification("verify-me".to_string())));
    assert_eq!(found.unwrap().id, hennry.id);

    let found = store.find(User::find_by_token(&Claims::Verification("other".to_string())));
    assert!(found.is_none());

    assert!(matches!(User::find_by_token(&Claims::Other), Lookup::Done(None)));
}

#[test]
fn test_load_with_user_email_verification_token() {
    let u = fixture("hennry");
    let mut store = Memory::with(&[&u]);
    store.emails.push(address(
        &u,
        UserEmailRole::General,
        UserEmailVerificationState::Pending,
        Some("verify-me"),
    ));
    store.emails.push(address(
        &u,
        UserEmailRole::General,
        UserEmailVerificationState::Done,
        Some("verified"),
    ));

    let load = |token: &str| {
        let query = User::load_with_user_email_verification_token(token);
        let pairs: Result<_, NotFound> = Ok(store.select_pairs(&query));
        User::loaded_with_user_email(pairs)
    };
    let (user, email) = load("verify-me").unwrap();
    assert_eq!(user.id, u.id);
    assert_eq!(email.verification_token, Some("verify-me".to_string()));
    assert_eq!(load("verified").unwrap_err(), "not found");
    assert_eq!(load("unknown").unwrap_err(), "not found");
    assert_eq!(User::loaded_with_user_email(Err(NotFound)).unwrap_err(), "not found");

    let pair = (u.clone(), store.emails[0].clone());
    let two: Result<_, NotFound> = Ok(vec![pair.clone(), pair]);
    assert_eq!(User::loaded_with_user_email(two).unwrap_err(), "not found");
}

#[test]
fn test_insert_is_always_pending() {
    let new = NewUser {
        name: None,
        username: "johnny".to_string(),
        email: "johnny@example.org".to_string(),
        password: b"secret".to_vec(),
        state: UserState::Active,
        reset_password_state: UserResetPasswordState::Pending,
    };
    let insert = User::insert(&new);
    assert_eq!(insert.name, None);
    assert_eq!(insert.username, "johnny");
    assert_eq!(insert.email, "johnny@example.org");
    assert_eq!(insert.password, b"secret".to_vec());
    assert_eq!(insert.state, UserState::Pending);
    assert_eq!(insert.reset_password_state, UserResetPasswordState::Never);

    let mut store = Memory::new();
    let user = User::inserted(store.insert(insert)).unwrap();
    assert!(!store.is_unique(&User::check_email_uniqueness(&user.email)));
    assert!(!store.is_unique(&User::check_username_uniqueness(&user.username)));
    assert!(store.find(User::find_by_email(&user.email)).is_none());

    assert!(User::inserted(Err(NotFound)).is_none());
}

#[test]
fn test_activate() {
    let mut hennry = fixture("hennry");
    hennry.uuid = 0x67e5_5044_10b1_426f_9247_bb68_0e5f_e0c8;
    let mut store = Memory::with(&[&fixture("oswald"), &hennry]);
    assert!(store.find(User::find_by_email(&hennry.email)).is_none());

    let update = hennry.activate();
    assert_eq!(update.id, 3);
    assert_eq!(update.state, UserState::Active);
    let urn = hennry.activated(&store.update(update)).unwrap();
    assert_eq!(urn, "urn:uuid:67e55044-10b1-426f-9247-bb680e5fe0c8");

    assert_eq!(store.find(User::find_by_email(&hennry.email)).unwrap().id, hennry.id);
    let found = store.find(User::find_by_uuid(&urn)).unwrap();
    let active = User { state: UserState::Active, ..hennry.clone() };
    assert_eq!(format!("{:?}", found), format!("{:?}", active));
    assert_eq!(store.users[0].state, UserState::Active);
    assert_eq!(store.users[0].id, 1);

    assert_eq!(hennry.activated(&Err(NotFound)).unwrap_err(), "failed to activate");
}

#[test]
fn test_set_password_is_accepted_once_stored() {
    let mut new = NewUser { email: "johnny@example.org".to_string(), ..Default::default() };
    assert_eq!(new.set_password("Pa$$w0rd"), Ok(()));
    assert_eq!(new.password.len(), 60);
    assert!(new.password.starts_with(b"$2b$12$"));
    assert_eq!(new.email, "johnny@example.org");

    let mut store = Memory::new();
    let user = User::inserted(store.insert(User::insert(&new))).unwrap();
    assert!(user.verify_password("Pa$$w0rd"));
    assert!(!user.verify_password("Pa$$w0rd."));
    assert!(!user.verify_password(""));
    assert_eq!(user.try_verify_password("Pa$$w0rd\0"), None);
}

#[test]
fn test_change_password() {
    let mut user = fixture("oswald");
    let before = user.clone();
    assert_eq!(user.change_password("another"), Ok(()));
    assert_ne!(user.password, before.password);
    assert_eq!(user.try_verify_password("another"), Some(true));
    user.password = before.password.clone();
    assert_eq!(format!("{:?}", user), format!("{:?}", before));
}

#[test]
fn test_password_with_nul_is_refused() {
    let mut new = NewUser { password: b"before".to_vec(), ..Default::default() };
    assert_eq!(new.set_password("a\0b"), Err(PasswordError::NotEncrypted));
    assert_eq!(new.password, b"before".to_vec());

    let mut user = fixture("oswald");
    assert_eq!(user.change_password("\0"), Err(PasswordError::NotEncrypted));
    assert_eq!(user.password, b"Pa$$w0rd".to_vec());
}

#[test]
fn test_put_password() {
    let mut new = NewUser { ..Default::default() };
    assert_eq!(new.put_password(Some(b"encrypted".to_vec())), Ok(()));
    assert_eq!(new.password, b"encrypted".to_vec());
    assert_eq!(new.put_password(None), Err(PasswordError::NotEncrypted));
    assert_eq!(new.password, b"encrypted".to_vec());

    let mut user = fixture("weenie");
    assert_eq!(user.put_password(Some(b"encrypted".to_vec())), Ok(()));
    assert_eq!(user.password, b"encrypted".to_vec());
    assert_eq!(user.put_password(None), Err(PasswordError::NotEncrypted));
    assert_eq!(user.password, b"encrypted".to_vec());
}

#[test]
fn test_verify_password_of_a_known_hash() {
    let mut user = fixture("oswald");
    user.password = b"$2a$04$UuTkLRZZ6QofpDOlMz32MuuxEHA43WOemOYHPz6.SjsVsyO1tDU96".to_vec();
    assert!(user.verify_password("password"));
    assert!(!user.verify_password("Password"));
    assert_eq!(user.try_verify_password("password"), Some(true));
    assert_eq!(user.try_verify_password("Password"), Some(false));
    assert_eq!(user.try_verify_password("pass\0word"), None);
}

#[test]
fn test_no_verdict_without_a_hash() {
    let mut user = fixture("oswald");
    assert_eq!(user.try_verify_password("Pa$$w0rd"), None);
    user.password = vec![0xff, 0xfe];
    assert_eq!(user.try_verify_password("Pa$$w0rd"), None);
    user.password = format!("$2b$12${}", "é".repeat(26) + "x").into_bytes();
    assert_eq!(user.try_verify_password("Pa$$w0rd"), None);
    user.password = Vec::new();
    assert_eq!(user.try_verify_password(""), None);
}
