use argon2::password_hash::{PasswordHash, Salt, SaltString};
use argon2::Argon2;
use vstd::prelude::*;

use crate::http::error::{field_error, one_field_error, Error, ErrorView};
use crate::http::extractor::AuthUser;
use crate::store::{
    event_view, Event, Reply, ReplyView, Request, RequestView, Step, StepView, UserRow, UserRowView,
};
use crate::token::{issued, TokenCodec, DEFAULT_SESSION_LENGTH};

verus! {

broadcast use vstd::string::group_string_axioms;

/// The unique constraint on the names of the `user` table.
pub const USER_USERNAME_KEY: &'static str = "user_username_key";

/// The unique constraint on the emails of the `user` table.
pub const USER_EMAIL_KEY: &'static str = "user_email_key";

pub const USERNAME_FIELD: &'static str = "username";

pub const USERNAME_TAKEN: &'static str = "username taken";

pub const EMAIL_FIELD: &'static str = "email";

pub const EMAIL_TAKEN: &'static str = "email taken";

pub const EMAIL_UNKNOWN: &'static str = "does not exist";

#[derive(Debug)]
pub struct NewUser {
    pub username: String,
    pub email: String,
    pub password: String,
}

pub struct NewUserView {
    pub username: Seq<char>,
    pub email: Seq<char>,
    pub password: Seq<char>,
}

impl View for NewUser {
    type V = NewUserView;

    open spec fn view(&self) -> NewUserView {
        NewUserView { username: self.username@, email: self.email@, password: self.password@ }
    }
}

#[derive(Debug)]
pub struct LoginUser {
    pub email: String,
    pub password: String,
}

pub struct LoginUserView {
    pub email: Seq<char>,
    pub password: Seq<char>,
}

impl View for LoginUser {
    type V = LoginUserView;

    open spec fn view(&self) -> LoginUserView {
        LoginUserView { email: self.email@, password: self.password@ }
    }
}

/// The changes to a user: each field is replaced where a value is given
/// and kept where none is.
#[derive(Debug)]
pub struct UpdateUser {
    pub email: Option<String>,
    pub username: Option<String>,
    pub password: Option<String>,
    pub bio: Option<String>,
    pub image: Option<String>,
}

pub struct UpdateUserView {
    pub email: Option<Seq<char>>,
    pub username: Option<Seq<char>>,
    pub password: Option<Seq<char>>,
    pub bio: Option<Seq<char>>,
    pub image: Option<Seq<char>>,
}

impl View for UpdateUser {
    type V = UpdateUserView;

    open spec fn view(&self) -> UpdateUserView {
        UpdateUserView {
            email: self.email.deep_view(),
            username: self.username.deep_view(),
            password: self.password.deep_view(),
            bio: self.bio.deep_view(),
            image: self.image.deep_view(),
        }
    }
}

impl UpdateUserView {
    /// Whether nothing is to be changed.
    pub open spec fn is_empty(self) -> bool {
        self.email is None && self.username is None && self.password is None && self.bio is None
            && self.image is None
    }
}

#[derive(Debug)]
pub struct User {
    pub email: String,
    pub token: String,
    pub username: String,
    pub bio: String,
    pub image: Option<String>,
}

pub struct UserView {
    pub email: Seq<char>,
    pub token: Seq<char>,
    pub username: Seq<char>,
    pub bio: Seq<char>,
    pub image: Option<Seq<char>>,
}

impl View for User {
    type V = UserView;

    open spec fn view(&self) -> UserView {
        UserView {
            email: self.email@,
            token: self.token@,
            username: self.username@,
            bio: self.bio@,
            image: self.image.deep_view(),
        }
    }
}

/// What became of checking a password against a stored hash.
#[derive(Clone, Copy, Debug, PartialEq, Eq, Structural)]
pub enum PasswordCheck {
    /// The password is the one that was hashed.
    Match,
    /// It is not.
    Mismatch,
    /// What is stored is no password hash.
    Malformed,
    /// The check itself failed.
    Failed,
}

/// The hash that Argon2, with its default parameters, makes of a password
/// and a salt, in the PHC string format; nothing where the salt is not
/// accepted or hashing fails.
pub uninterp spec fn argon2_phc(password: Seq<char>, salt: Seq<char>) -> Option<Seq<char>>;

/// What checking a password against a stored hash gives, with Argon2 in
/// its default parameters as the only algorithm on offer.
pub uninterp spec fn argon2_verdict(password: Seq<char>, hash: Seq<char>) -> PasswordCheck;

/// `SaltString::generate` of `password_hash` with the thread's random
/// number generator of `rand`, as text. Nothing is known of a random salt.
#[verifier::external_body]
fn random_salt() -> String {
    SaltString::generate(rand::thread_rng()).as_str().to_string()
}

/// `PasswordHash::generate` with `Argon2::default()`, on a salt that
/// `Salt::from_b64` accepted, written out as a PHC string. Whatever error
/// either gives, the answer is `None`.
///
/// The result depends on the arguments alone, and a hash that was made
/// matches the password that it was made of.
#[verifier::external_body]
fn argon2_hash(password: &str, salt: &str) -> (hash: Option<String>)
    ensures
        hash.deep_view() == argon2_phc(password@, salt@),
        hash matches Some(made) ==> argon2_verdict(password@, made@) == PasswordCheck::Match,
{
    let salt = Salt::from_b64(salt).ok()?;
    let hash = PasswordHash::generate(Argon2::default(), password, salt).ok()?;
    Some(hash.to_string())
}

/// `PasswordHash::new` on the stored text, then `verify_password` with
/// `Argon2::default()` as the only algorithm on offer. The outcome is told
/// by the error's kind.
///
/// The result depends on the arguments alone.
#[verifier::external_body]
fn argon2_check(password: &str, password_hash: &str) -> (check: PasswordCheck)
    ensures
        check == argon2_verdict(password@, password_hash@),
{
    let hash = match PasswordHash::new(password_hash) {
        Ok(hash) => hash,
        Err(_) => return PasswordCheck::Malformed,
    };
    match hash.verify_password(&[&Argon2::default()], password) {
        Ok(()) => PasswordCheck::Match,
        Err(argon2::password_hash::Error::Password) => PasswordCheck::Mismatch,
        Err(_) => PasswordCheck::Failed,
    }
}

/// The outcome of hashing `password` with `salt`.
pub open spec fn hashed(password: Seq<char>, salt: Seq<char>) -> Result<Seq<char>, ErrorView> {
    match argon2_phc(password, salt) {
        Some(hash) => Ok(hash),
        None => Err(ErrorView::Internal),
    }
}

/// What a password check means for the caller: a password that does not
/// match is a failed authentication; a hash that cannot be read or checked
/// is a failure of the server.
pub open spec fn password_verdict(check: PasswordCheck) -> Result<(), Error> {
    match check {
        PasswordCheck::Match => Ok(()),
        PasswordCheck::Mismatch => Err(Error::Unauthorized),
        PasswordCheck::Malformed => Err(Error::Internal),
        PasswordCheck::Failed => Err(Error::Internal),
    }
}

/// What a password check means for the caller.
pub fn judge_password(check: PasswordCheck) -> (r: Result<(), Error>)
    ensures
        r == password_verdict(check),
{
    match check {
        PasswordCheck::Match => Ok(()),
        PasswordCheck::Mismatch => Err(Error::Unauthorized),
        PasswordCheck::Malformed => Err(Error::Internal),
        PasswordCheck::Failed => Err(Error::Internal),
    }
}

/// The hash of `password` with `salt`, or `Error::Internal`.
pub fn hash_password_with(password: &str, salt: &str) -> (r: Result<String, Error>)
    ensures
        match r {
            Ok(hash) => hashed(password@, salt@) == Ok::<Seq<char>, ErrorView>(hash@),
            Err(e) => hashed(password@, salt@) == Err::<Seq<char>, ErrorView>(e@),
        },
        r matches Ok(hash) ==> argon2_verdict(password@, hash@) == PasswordCheck::Match,
{
    match argon2_hash(password, salt) {
        Some(hash) => Ok(hash),
        None => Err(Error::Internal),
    }
}

/// The hash of `password` with a fresh random salt, or `Error::Internal`.
///
/// Argon2 hashing is designed to be computationally intensive, so a server
/// calls this on a thread that may block.
pub fn hash_password(password: &str) -> (r: Result<String, Error>)
    ensures
        exists|salt: Seq<char>|
            match r {
                Ok(hash) => #[trigger] hashed(password@, salt) == Ok::<Seq<char>, ErrorView>(hash@),
                Err(e) => hashed(password@, salt) == Err::<Seq<char>, ErrorView>(e@),
            },
        r matches Ok(hash) ==> argon2_verdict(password@, hash@) == PasswordCheck::Match,
{
    let salt = random_salt();
    hash_password_with(password, salt.as_str())
}

/// Checks `password` against the stored hash: `Ok` if it is the password,
/// `Error::Unauthorized` if it is not, `Error::Internal` if the hash cannot
/// be read or checked.
pub fn verify_password(password: &str, password_hash: &str) -> (r: Result<(), Error>)
    ensures
        r == password_verdict(argon2_verdict(password@, password_hash@)),
{
    judge_password(argon2_check(password, password_hash))
}

/// Where an operation on the `user` table stands.
#[derive(Debug)]
pub enum UserOp {
    /// The insert of a new user was asked for.
    Inserting { username: String, email: String },
    /// The user who logs in was asked for.
    Finding { password: String },
    /// The user's row was asked for.
    Loading { user_id: u128 },
    /// The update was asked for.
    Updating { user_id: u128 },
    /// The operation is over.
    Closed,
}

#[allow(inconsistent_fields)]
pub enum UserOpView {
    Inserting { username: Seq<char>, email: Seq<char> },
    Finding { password: Seq<char> },
    Loading { user_id: u128 },
    Updating { user_id: u128 },
    Closed,
}

impl View for UserOp {
    type V = UserOpView;

    open spec fn view(&self) -> UserOpView {
        match self {
            UserOp::Inserting { username, email } => UserOpView::Inserting {
                username: username@,
                email: email@,
            },
            UserOp::Finding { password } => UserOpView::Finding { password: password@ },
            UserOp::Loading { user_id } => UserOpView::Loading { user_id: *user_id },
            UserOp::Updating { user_id } => UserOpView::Updating { user_id: *user_id },
            UserOp::Closed => UserOpView::Closed,
        }
    }
}

/// The user that a row stands for, with a token.
pub open spec fn user_of(row: UserRowView, token: Seq<char>) -> UserView {
    UserView { email: row.email, token, username: row.username, bio: row.bio, image: row.image }
}

/// The error that answers a write which broke a unique constraint of the
/// `user` table: the field that is taken, by name. Any other failure is
/// passed on as it is.
pub open spec fn taken_error(e: ErrorView) -> ErrorView {
    if e == (ErrorView::Database { constraint: Some(USER_USERNAME_KEY@) }) {
        one_field_error(USERNAME_FIELD@, USERNAME_TAKEN@)
    } else if e == (ErrorView::Database { constraint: Some(USER_EMAIL_KEY@) }) {
        one_field_error(EMAIL_FIELD@, EMAIL_TAKEN@)
    } else {
        e
    }
}

fn taken(e: Error) -> (r: Error)
    ensures
        r@ == taken_error(e@),
{
    if e.broke(USER_USERNAME_KEY) {
        field_error(USERNAME_FIELD, USERNAME_TAKEN)
    } else if e.broke(USER_EMAIL_KEY) {
        field_error(EMAIL_FIELD, EMAIL_TAKEN)
    } else {
        e
    }
}

/// The state and the first step of registering `new_user`, whose password
/// is hashed with `salt`.
pub open spec fn create_user_first(new_user: NewUserView, salt: Seq<char>) -> (
    UserOpView,
    StepView<UserView>,
) {
    match hashed(new_user.password, salt) {
        Ok(password_hash) => (
            UserOpView::Inserting { username: new_user.username, email: new_user.email },
            StepView::Ask(
                RequestView::InsertUser {
                    username: new_user.username,
                    email: new_user.email,
                    password_hash,
                },
            ),
        ),
        Err(e) => (UserOpView::Closed, StepView::Finish(Err(e))),
    }
}

/// The state and the first step of logging in.
pub open spec fn login_user_first(login: LoginUserView) -> (UserOpView, StepView<UserView>) {
    (
        UserOpView::Finding { password: login.password },
        StepView::Ask(RequestView::FindUserByEmail { email: login.email }),
    )
}

/// The state and the first step of showing a user their own account.
pub open spec fn current_user_first(user_id: u128) -> (UserOpView, StepView<UserView>) {
    (UserOpView::Loading { user_id }, StepView::Ask(RequestView::FindUserById { user_id }))
}

/// The state and the first step of changing a user's account, where a new
/// password is hashed with `salt`. With nothing to change, the account is
/// shown as it is.
pub open spec fn update_user_first(user_id: u128, changes: UpdateUserView, salt: Seq<char>) -> (
    UserOpView,
    StepView<UserView>,
) {
    if changes.is_empty() {
        current_user_first(user_id)
    } else {
        match changes.password {
            Some(password) => match hashed(password, salt) {
                Ok(password_hash) => (
                    UserOpView::Updating { user_id },
                    StepView::Ask(
                        RequestView::UpdateUser {
                            user_id,
                            email: changes.email,
                            username: changes.username,
                            password_hash: Some(password_hash),
                            bio: changes.bio,
                            image: changes.image,
                        },
                    ),
                ),
                Err(e) => (UserOpView::Closed, StepView::Finish(Err(e))),
            },
            None => (
                UserOpView::Updating { user_id },
                StepView::Ask(
                    RequestView::UpdateUser {
                        user_id,
                        email: changes.email,
                        username: changes.username,
                        password_hash: None,
                        bio: changes.bio,
                        image: changes.image,
                    },
                ),
            ),
        }
    }
}

/// The next state and step of an operation on the `user` table, at the
/// time `now` and with the signing key `key`.
///
/// Every operation that succeeds hands the user a fresh token. A name or
/// an email that is taken is reported as a validation error on that field.
/// At login an email that no user has is reported as a validation error on
/// the email, and a password that does not match as `Unauthorized`: the
/// two can be told apart by whoever asks.
pub open spec fn user_next(
    state: UserOpView,
    event: Result<ReplyView, ErrorView>,
    key: Seq<u8>,
    now: i64,
) -> (UserOpView, StepView<UserView>) {
    match (state, event) {
        (UserOpView::Inserting { username, email }, Ok(ReplyView::UserId(user_id))) => (
            UserOpView::Closed,
            StepView::Finish(
                Ok(
                    UserView {
                        email,
                        token: issued(key, user_id, now),
                        username,
                        bio: Seq::empty(),
                        image: None,
                    },
                ),
            ),
        ),
        (UserOpView::Inserting { username, email }, Err(e)) => (
            UserOpView::Closed,
            StepView::Finish(Err(taken_error(e))),
        ),
        (UserOpView::Finding { password }, Ok(ReplyView::User(None))) => (
            UserOpView::Closed,
            StepView::Finish(Err(one_field_error(EMAIL_FIELD@, EMAIL_UNKNOWN@))),
        ),
        (UserOpView::Finding { password }, Ok(ReplyView::User(Some(row)))) => (
            UserOpView::Closed,
            StepView::Finish(
                match password_verdict(argon2_verdict(password, row.password_hash)) {
                    Ok(_) => Ok(user_of(row, issued(key, row.user_id, now))),
                    Err(e) => Err(e@),
                },
            ),
        ),
        (UserOpView::Loading { user_id }, Ok(ReplyView::User(Some(row)))) => (
            UserOpView::Closed,
            StepView::Finish(Ok(user_of(row, issued(key, user_id, now)))),
        ),
        (UserOpView::Updating { user_id }, Ok(ReplyView::User(Some(row)))) => (
            UserOpView::Closed,
            StepView::Finish(Ok(user_of(row, issued(key, user_id, now)))),
        ),
        (UserOpView::Updating { user_id }, Err(e)) => (
            UserOpView::Closed,
            StepView::Finish(Err(taken_error(e))),
        ),
        (UserOpView::Closed, _) => (UserOpView::Closed, StepView::Finish(Err(ErrorView::Internal))),
        (_, Err(e)) => (UserOpView::Closed, StepView::Finish(Err(e))),
        _ => (UserOpView::Closed, StepView::Finish(Err(ErrorView::Internal))),
    }
}

fn user_with_token(row: UserRow, token: String) -> (user: User)
    ensures
        user@ == user_of(row@, token@),
{
    User { email: row.email, token, username: row.username, bio: row.bio, image: row.image }
}

// https://realworld-docs.netlify.app/docs/specs/backend-specs/endpoints#registration
/// Starts the registration of `new_user`, whose password is hashed with
/// `salt`.
pub fn create_user_with(new_user: NewUser, salt: &str) -> (r: (UserOp, Step<User>))
    ensures
        (r.0@, r.1@) == create_user_first(new_user@, salt@),
{
    match hash_password_with(new_user.password.as_str(), salt) {
        Ok(password_hash) => (
            UserOp::Inserting { username: new_user.username.clone(), email: new_user.email.clone() },
            Step::Ask(
                Request::InsertUser {
                    username: new_user.username,
                    email: new_user.email,
                    password_hash,
                },
            ),
        ),
        Err(e) => (UserOp::Closed, Step::Finish(Err(e))),
    }
}

/// Starts the registration of `new_user`, whose password is hashed with a
/// fresh random salt.
pub fn create_user(new_user: NewUser) -> (r: (UserOp, Step<User>))
    ensures
        exists|salt: Seq<char>| (r.0@, r.1@) == #[trigger] create_user_first(new_user@, salt),
{
    let salt = random_salt();
    create_user_with(new_user, salt.as_str())
}

// https://realworld-docs.netlify.app/docs/specs/backend-specs/endpoints#authentication
/// Starts a login.
///
/// An email that no user has and a password that does not match are
/// answered differently, so whoever asks can find out which emails are
/// registered. Whether that is wanted is for the integrator to decide; it
/// is kept as it is here and not decided in silence.
pub fn login_user(login: LoginUser) -> (r: (UserOp, Step<User>))
    ensures
        (r.0@, r.1@) == login_user_first(login@),
{
    (
        UserOp::Finding { password: login.password },
        Step::Ask(Request::FindUserByEmail { email: login.email }),
    )
}

// https://realworld-docs.netlify.app/docs/specs/backend-specs/endpoints#get-current-user
/// Starts the operation that shows a user their own account.
pub fn get_current_user(auth_user: AuthUser) -> (r: (UserOp, Step<User>))
    ensures
        (r.0@, r.1@) == current_user_first(auth_user.user_id),
{
    (
        UserOp::Loading { user_id: auth_user.user_id },
        Step::Ask(Request::FindUserById { user_id: auth_user.user_id }),
    )
}

// https://realworld-docs.netlify.app/docs/specs/backend-specs/endpoints#update-user
// Semantically, because this route allows a partial update it should be `PATCH`, not `PUT`.
// However, the API says `PUT`, so `PUT` it is.
/// Starts the change of a user's account, where a new password is hashed
/// with `salt`.
pub fn update_user_with(auth_user: AuthUser, changes: UpdateUser, salt: &str) -> (r: (
    UserOp,
    Step<User>,
))
    ensures
        (r.0@, r.1@) == update_user_first(auth_user.user_id, changes@, salt@),
{
    if changes.email.is_none() && changes.username.is_none() && changes.password.is_none()
        && changes.bio.is_none() && changes.image.is_none() {
        // If there's no fields to update, these two routes are effectively identical.
        return get_current_user(auth_user);
    }
    let password_hash = match &changes.password {
        Some(password) => match hash_password_with(password.as_str(), salt) {
            Ok(password_hash) => Some(password_hash),
            Err(e) => {
                return (UserOp::Closed, Step::Finish(Err(e)));
            },
        },
        None => None,
    };
    (
        UserOp::Updating { user_id: auth_user.user_id },
        Step::Ask(
            Request::UpdateUser {
                user_id: auth_user.user_id,
                email: changes.email,
                username: changes.username,
                password_hash,
                bio: changes.bio,
                image: changes.image,
            },
        ),
    )
}

/// Starts the change of a user's account, where a new password is hashed
/// with a fresh random salt.
pub fn update_user(auth_user: AuthUser, changes: UpdateUser) -> (r: (UserOp, Step<User>))
    ensures
        exists|salt: Seq<char>|
            (r.0@, r.1@) == #[trigger] update_user_first(auth_user.user_id, changes@, salt),
{
    let salt = random_salt();
    update_user_with(auth_user, changes, salt.as_str())
}

impl UserOp {
    /// What the operation does when `event` comes in at the time `now`.
    pub fn step(self, event: Event, codec: &TokenCodec, now: i64) -> (r: (UserOp, Step<User>))
        requires
            now + DEFAULT_SESSION_LENGTH <= i64::MAX,
        ensures
            (r.0@, r.1@) == user_next(self@, event_view(event), codec.key(), now),
    {
        match (self, event) {
            (UserOp::Inserting { username, email }, Ok(Reply::UserId(user_id))) => (
                UserOp::Closed,
                Step::Finish(
                    Ok(
                        User {
                            email,
                            token: codec.issue_at(user_id, now),
                            username,
                            bio: String::new(),
                            image: None,
                        },
                    ),
                ),
            ),
            (UserOp::Inserting { username, email }, Err(e)) => (
                UserOp::Closed,
                Step::Finish(Err(taken(e))),
            ),
            (UserOp::Finding { password }, Ok(Reply::User(None))) => (
                UserOp::Closed,
                Step::Finish(Err(field_error(EMAIL_FIELD, EMAIL_UNKNOWN))),
            ),
            (UserOp::Finding { password }, Ok(Reply::User(Some(row)))) => {
                match verify_password(password.as_str(), row.password_hash.as_str()) {
                    Ok(_) => {
                        let token = codec.issue_at(row.user_id, now);
                        (UserOp::Closed, Step::Finish(Ok(user_with_token(row, token))))
                    },
                    Err(e) => (UserOp::Closed, Step::Finish(Err(e))),
                }
            },
            (UserOp::Loading { user_id }, Ok(Reply::User(Some(row)))) => {
                let token = codec.issue_at(user_id, now);
                (UserOp::Closed, Step::Finish(Ok(user_with_token(row, token))))
            },
            (UserOp::Updating { user_id }, Ok(Reply::User(Some(row)))) => {
                let token = codec.issue_at(user_id, now);
                (UserOp::Closed, Step::Finish(Ok(user_with_token(row, token))))
            },
            (UserOp::Updating { user_id }, Err(e)) => (UserOp::Closed, Step::Finish(Err(taken(e)))),
            (UserOp::Closed, _) => (UserOp::Closed, Step::Finish(Err(Error::Internal))),
            (_, Err(e)) => (UserOp::Closed, Step::Finish(Err(e))),
            _ => (UserOp::Closed, Step::Finish(Err(Error::Internal))),
        }
    }
}

} // verus!
