use hmac::{Hmac, Mac};
use jwt::VerifyWithKey;
use realworld_axum_sqlx::http::error::Error;
use realworld_axum_sqlx::http::extractor::AuthUser;
use realworld_axum_sqlx::http::users::{
    create_user, create_user_with, get_current_user, hash_password, hash_password_with,
    judge_password, login_user, update_user, update_user_with, verify_password, LoginUser, NewUser,
    PasswordCheck, UpdateUser, User,
};
use realworld_axum_sqlx::store::{Reply, Request, Step, UserRow};
use realworld_axum_sqlx::token::TokenCodec;
use sha2::Sha384;

const NOW: i64 = 1_700_000_000;
const SALT: &str = "c29tZXNhbHRzb21lc2FsdA";
const U1: u128 = 0x67e55044_10b1_426f_9247_bb680e5fe0c8;

fn new_user() -> NewUser {
    NewUser {
        username: "alice".to_string(),
        email: "alice@example.com".to_string(),
        password: "hunter2".to_string(),
    }
}

fn row(password_hash: &str) -> UserRow {
    UserRow {
        user_id: U1,
        email: "alice@example.com".to_string(),
        username: "alice".to_string(),
        bio: "hi".to_string(),
        image: Some("http://example.com/a.png".to_string()),
        password_hash: password_hash.to_string(),
    }
}

fn violation(name: &str) -> Result<Reply, Error> {
    Err(Error::Database { constraint: Some(name.to_string()) })
}

fn invalid(step: Step<User>) -> Vec<(String, Vec<String>)> {
    match step {
        Step::Finish(Err(Error::UnprocessableEntity { errors })) => errors,
        other => panic!("no validation error: {:?}", other),
    }
}

fn user(step: Step<User>) -> User {
    match step {
        Step::Finish(Ok(user)) => user,
        other => panic!("no user: {:?}", other),
    }
}

fn subject_and_expiry(token: &str) -> (String, i64) {
    let key: Hmac<Sha384> = Hmac::new_from_slice(b"secret").unwrap();
    let claims: serde_json::Map<String, serde_json::Value> = token.verify_with_key(&key).unwrap();
    (
        claims["user_id"].as_str().unwrap().to_string(),
        claims["exp"].as_i64().unwrap(),
    )
}

#[test]
fn hash_then_verify() {
    let hash = hash_password("hunter2").unwrap();
    assert!(hash.starts_with("$argon2id$"));
    assert!(matches!(verify_password("hunter2", &hash), Ok(())));
    assert!(matches!(verify_password("hunter3", &hash), Err(Error::Unauthorized)));
    assert!(matches!(verify_password("", &hash), Err(Error::Unauthorized)));
}

#[test]
fn hash_with_a_salt_is_deterministic() {
    let one = hash_password_with("hunter2", SALT).unwrap();
    let two = hash_password_with("hunter2", SALT).unwrap();
    assert_eq!(one, two);
    assert!(one.contains(SALT));
    assert_ne!(one, "hunter2");
    assert_ne!(one, hash_password_with("hunter3", SALT).unwrap());
    assert!(matches!(verify_password("hunter2", &one), Ok(())));
}

#[test]
fn fresh_salts_differ() {
    let one = hash_password("hunter2").unwrap();
    let two = hash_password("hunter2").unwrap();
    assert_ne!(one, two);
}

#[test]
fn a_salt_that_is_refused_is_an_internal_error() {
    assert!(matches!(hash_password_with("hunter2", ""), Err(Error::Internal)));
    assert!(matches!(hash_password_with("hunter2", "abc"), Err(Error::Internal)));
    assert!(matches!(hash_password_with("hunter2", "not base64 !!"), Err(Error::Internal)));
}

#[test]
fn a_stored_hash_that_is_none_is_an_internal_error() {
    assert!(matches!(verify_password("hunter2", ""), Err(Error::Internal)));
    assert!(matches!(verify_password("hunter2", "hunter2"), Err(Error::Internal)));
    assert!(matches!(verify_password("hunter2", "$"), Err(Error::Internal)));
}

#[test]
fn a_stored_hash_without_a_digest_matches_no_password() {
    // This reads as a hash, of the right algorithm, that holds no digest.
    assert!(matches!(verify_password("hunter2", "$argon2id"), Err(Error::Unauthorized)));
}

#[test]
fn password_checks_are_judged() {
    assert!(matches!(judge_password(PasswordCheck::Match), Ok(())));
    assert!(matches!(judge_password(PasswordCheck::Mismatch), Err(Error::Unauthorized)));
    assert!(matches!(judge_password(PasswordCheck::Malformed), Err(Error::Internal)));
    assert!(matches!(judge_password(PasswordCheck::Failed), Err(Error::Internal)));
}

#[test]
fn registration_inserts_the_hash_and_answers_with_a_token() {
    let codec = TokenCodec::new("secret");
    let (state, step) = create_user_with(new_user(), SALT);
    match step {
        Step::Ask(Request::InsertUser { username, email, password_hash }) => {
            assert_eq!(username, "alice");
            assert_eq!(email, "alice@example.com");
            assert_eq!(password_hash, hash_password_with("hunter2", SALT).unwrap());
        }
        other => panic!("{:?}", other),
    }
    let (_, step) = state.step(Ok(Reply::UserId(U1)), &codec, NOW);
    let user = user(step);
    assert_eq!(user.email, "alice@example.com");
    assert_eq!(user.username, "alice");
    assert_eq!(user.bio, "");
    assert_eq!(user.image, None);
    assert_eq!(user.token, codec.issue_at(U1, NOW));
    assert_eq!(
        subject_and_expiry(&user.token),
        ("67e55044-10b1-426f-9247-bb680e5fe0c8".to_string(), NOW + 1_209_600)
    );
}

#[test]
fn registration_with_a_random_salt() {
    let (_, step) = create_user(new_user());
    match step {
        Step::Ask(Request::InsertUser { password_hash, .. }) => {
            assert!(matches!(verify_password("hunter2", &password_hash), Ok(())));
        }
        other => panic!("{:?}", other),
    }
}

#[test]
fn registration_under_a_taken_name_names_the_field() {
    let codec = TokenCodec::new("secret");
    let (state, _) = create_user_with(new_user(), SALT);
    let (_, step) = state.step(violation("user_username_key"), &codec, NOW);
    assert_eq!(
        invalid(step),
        vec![("username".to_string(), vec!["username taken".to_string()])]
    );
}

#[test]
fn registration_under_a_taken_email_names_the_field() {
    let codec = TokenCodec::new("secret");
    let (state, _) = create_user_with(new_user(), SALT);
    let (_, step) = state.step(violation("user_email_key"), &codec, NOW);
    assert_eq!(invalid(step), vec![("email".to_string(), vec!["email taken".to_string()])]);
}

#[test]
fn registration_passes_other_failures_on() {
    let codec = TokenCodec::new("secret");
    let (state, _) = create_user_with(new_user(), SALT);
    let (_, step) = state.step(violation("article_slug_key"), &codec, NOW);
    assert!(matches!(step, Step::Finish(Err(Error::Database { constraint: Some(_) }))));
    let (state, _) = create_user_with(new_user(), SALT);
    let (_, step) = state.step(Err(Error::Database { constraint: None }), &codec, NOW);
    assert!(matches!(step, Step::Finish(Err(Error::Database { constraint: None }))));
}

#[test]
fn registration_with_a_refused_salt_asks_nothing() {
    let (_, step) = create_user_with(new_user(), "");
    assert!(matches!(step, Step::Finish(Err(Error::Internal))));
}

#[test]
fn login_with_the_password() {
    let codec = TokenCodec::new("secret");
    let hash = hash_password_with("hunter2", SALT).unwrap();
    let login = LoginUser { email: "alice@example.com".to_string(), password: "hunter2".to_string() };
    let (state, step) = login_user(login);
    match step {
        Step::Ask(Request::FindUserByEmail { email }) => assert_eq!(email, "alice@example.com"),
        other => panic!("{:?}", other),
    }
    let (_, step) = state.step(Ok(Reply::User(Some(row(&hash)))), &codec, NOW);
    let user = user(step);
    assert_eq!(user.email, "alice@example.com");
    assert_eq!(user.username, "alice");
    assert_eq!(user.bio, "hi");
    assert_eq!(user.image.as_deref(), Some("http://example.com/a.png"));
    assert_eq!(codec.verify_at(&user.token, NOW), Ok(U1));
}

#[test]
fn login_with_a_wrong_password_is_unauthorized() {
    let codec = TokenCodec::new("secret");
    let hash = hash_password_with("hunter2", SALT).unwrap();
    let login = LoginUser { email: "alice@example.com".to_string(), password: "hunter3".to_string() };
    let (state, _) = login_user(login);
    let (_, step) = state.step(Ok(Reply::User(Some(row(&hash)))), &codec, NOW);
    assert!(matches!(step, Step::Finish(Err(Error::Unauthorized))));
}

#[test]
fn login_with_an_unknown_email_is_a_validation_error() {
    let codec = TokenCodec::new("secret");
    let login = LoginUser { email: "nobody@example.com".to_string(), password: "x".to_string() };
    let (state, _) = login_user(login);
    let (_, step) = state.step(Ok(Reply::User(None)), &codec, NOW);
    assert_eq!(invalid(step), vec![("email".to_string(), vec!["does not exist".to_string()])]);
}

#[test]
fn login_against_a_broken_hash_is_an_internal_error() {
    let codec = TokenCodec::new("secret");
    let login = LoginUser { email: "alice@example.com".to_string(), password: "x".to_string() };
    let (state, _) = login_user(login);
    let (_, step) = state.step(Ok(Reply::User(Some(row("not a hash")))), &codec, NOW);
    assert!(matches!(step, Step::Finish(Err(Error::Internal))));
}

#[test]
fn current_user_gets_a_fresh_token() {
    let codec = TokenCodec::new("secret");
    let (state, step) = get_current_user(AuthUser { user_id: U1 });
    assert!(matches!(step, Step::Ask(Request::FindUserById { user_id: U1 })));
    let (_, step) = state.step(Ok(Reply::User(Some(row("")))), &codec, NOW);
    let user = user(step);
    assert_eq!(user.username, "alice");
    assert_eq!(user.token, codec.issue_at(U1, NOW));

    let (state, _) = get_current_user(AuthUser { user_id: U1 });
    let (_, step) = state.step(Ok(Reply::User(None)), &codec, NOW);
    assert!(matches!(step, Step::Finish(Err(Error::Internal))));
}

fn nothing() -> UpdateUser {
    UpdateUser { email: None, username: None, password: None, bio: None, image: None }
}

#[test]
fn update_with_nothing_to_change_shows_the_account() {
    let (_, step) = update_user_with(AuthUser { user_id: U1 }, nothing(), SALT);
    assert!(matches!(step, Step::Ask(Request::FindUserById { user_id: U1 })));
    let (_, step) = update_user(AuthUser { user_id: U1 }, nothing());
    assert!(matches!(step, Step::Ask(Request::FindUserById { user_id: U1 })));
}

#[test]
fn update_asks_for_what_was_given_and_hashes_the_password() {
    let codec = TokenCodec::new("secret");
    let changes = UpdateUser {
        email: None,
        username: Some("alicia".to_string()),
        password: Some("hunter3".to_string()),
        bio: Some("".to_string()),
        image: None,
    };
    let (state, step) = update_user_with(AuthUser { user_id: U1 }, changes, SALT);
    match step {
        Step::Ask(Request::UpdateUser { user_id, email, username, password_hash, bio, image }) => {
            assert_eq!(user_id, U1);
            assert_eq!(email, None);
            assert_eq!(username.as_deref(), Some("alicia"));
            assert_eq!(password_hash, Some(hash_password_with("hunter3", SALT).unwrap()));
            assert_eq!(bio.as_deref(), Some(""));
            assert_eq!(image, None);
        }
        other => panic!("{:?}", other),
    }
    let (_, step) = state.step(Ok(Reply::User(Some(row("")))), &codec, NOW);
    assert_eq!(user(step).token, codec.issue_at(U1, NOW));
}

#[test]
fn update_without_a_password_hashes_nothing() {
    let changes = UpdateUser { bio: Some("new".to_string()), ..nothing() };
    // The salt is not looked at where there is no password.
    let (_, step) = update_user_with(AuthUser { user_id: U1 }, changes, "");
    match step {
        Step::Ask(Request::UpdateUser { password_hash, bio, .. }) => {
            assert_eq!(password_hash, None);
            assert_eq!(bio.as_deref(), Some("new"));
        }
        other => panic!("{:?}", other),
    }
}

#[test]
fn update_to_a_taken_name_or_email_names_the_field() {
    let codec = TokenCodec::new("secret");
    let changes = || UpdateUser { username: Some("bob".to_string()), ..nothing() };
    let (state, _) = update_user_with(AuthUser { user_id: U1 }, changes(), SALT);
    let (_, step) = state.step(violation("user_username_key"), &codec, NOW);
    assert_eq!(
        invalid(step),
        vec![("username".to_string(), vec!["username taken".to_string()])]
    );
    let (state, _) = update_user_with(AuthUser { user_id: U1 }, changes(), SALT);
    let (_, step) = state.step(violation("user_email_key"), &codec, NOW);
    assert_eq!(invalid(step), vec![("email".to_string(), vec!["email taken".to_string()])]);
}
