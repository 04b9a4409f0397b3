//! The login of a request.
use accounts::model::user::User;
use accounts::request::token::TokenType;
use accounts::request::user::{Login, LoginEvent, Outcome};

type Event = LoginEvent<u8, &'static str, u16>;

fn run(
    token_type: Outcome<TokenType, &'static str>,
    token: Outcome<String, u16>,
    user: Option<u8>,
) -> Outcome<u8, u16> {
    let login: Login<u8, u16> = User::from_request();
    let login = login.step(Event::TokenType(token_type));
    let login = login.step(Event::AuthenticationToken(token));
    match login.step(Event::User(user)) {
        Login::Done(outcome) => outcome,
        _ => unreachable!(),
    }
}

fn token() -> Outcome<String, u16> {
    Outcome::Success("token".to_string())
}

#[test]
fn test_login_of_a_user() {
    let outcome = run(Outcome::Success(TokenType::BrowserCookieToken), token(), Some(7));
    assert!(matches!(outcome, Outcome::Success(7)));
    let outcome = run(Outcome::Success(TokenType::PersonalAccessToken), token(), Some(7));
    assert!(matches!(outcome, Outcome::Success(7)));
}

#[test]
fn test_login_is_forwarded_without_a_user() {
    let outcome = run(Outcome::Success(TokenType::BrowserCookieToken), token(), None);
    assert!(matches!(outcome, Outcome::Forward));
}

#[test]
fn test_login_is_forwarded_without_a_type_of_token() {
    assert!(matches!(run(Outcome::Failure("no type"), token(), Some(7)), Outcome::Forward));
    assert!(matches!(run(Outcome::Forward, token(), Some(7)), Outcome::Forward));
    assert!(matches!(run(Outcome::Forward, Outcome::Failure(400), Some(7)), Outcome::Forward));
}

#[test]
fn test_login_fails_as_the_token_does() {
    let token_type = Outcome::Success(TokenType::PersonalAccessToken);
    assert!(matches!(run(token_type, Outcome::Failure(400), Some(7)), Outcome::Failure(400)));
    let token_type = Outcome::Success(TokenType::PersonalAccessToken);
    assert!(matches!(run(token_type, Outcome::Forward, Some(7)), Outcome::Forward));
}

#[test]
fn test_login_goes_step_by_step() {
    let login: Login<u8, u16> = User::from_request();
    assert!(matches!(login, Login::TokenType));
    let login = login.step(Event::User(Some(7)));
    assert!(matches!(login, Login::TokenType));
    let login = login.step(Event::AuthenticationToken(token()));
    assert!(matches!(login, Login::TokenType));

    let login = login.step(Event::TokenType(Outcome::Success(TokenType::PersonalAccessToken)));
    assert!(matches!(login, Login::AuthenticationToken(TokenType::PersonalAccessToken)));
    let login = login.step(Event::User(Some(7)));
    assert!(matches!(login, Login::AuthenticationToken(TokenType::PersonalAccessToken)));

    let login = login.step(Event::AuthenticationToken(token()));
    match &login {
        Login::User(token_type, token) => {
            assert_eq!(*token_type, TokenType::PersonalAccessToken);
            assert_eq!(token, "token");
        },
        _ => unreachable!(),
    }
    let login = login.step(Event::TokenType(Outcome::Forward));
    assert!(matches!(login, Login::User(_, _)));

    let login = login.step(Event::User(Some(7)));
    assert!(matches!(login, Login::Done(Outcome::Success(7))));
    let login = login.step(Event::User(None));
    assert!(matches!(login, Login::Done(Outcome::Success(7))));
}

#[test]
fn test_same_user_same_login() {
    for user in [Some(7), None] {
        let first = run(Outcome::Success(TokenType::BrowserCookieToken), token(), user);
        let other = Outcome::Success("another".to_string());
        let second = run(Outcome::Success(TokenType::PersonalAccessToken), other, user);
        assert_eq!(format!("{:?}", first), format!("{:?}", second));
    }
}
