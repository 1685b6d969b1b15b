use vstd::prelude::*;

use crate::http::error::Error;
use crate::text::{chars_of, push_char};
use crate::token::{issued, verified, TokenCodec};

verus! {

broadcast use vstd::string::group_string_axioms;

// Ideally the RealWorld API would use the `Bearer` scheme as that's relatively standard
// and has parsers available, but it's really not that hard to parse anyway.
pub const SCHEME_PREFIX: &'static str = "Token ";

/// The caller of a request that must come from a logged-in user.
///
/// It is read from the `Authorization: Token <token>` header.
#[derive(Clone, Copy, Debug, PartialEq, Eq, Structural)]
pub struct AuthUser {
    pub user_id: u128,
}

/// The caller of a request that a logged-in user and a stranger may both
/// make.
///
/// If the `Authorization` header is absent then this is `Self(None)`,
/// otherwise the token is validated: a header that is sent and not accepted
/// fails the request, it does not make the caller a stranger.
#[derive(Clone, Copy, Debug)]
pub struct MaybeAuthUser(pub Option<AuthUser>);

/// What a request's credential header amounts to.
#[derive(Clone, Copy, Debug, PartialEq, Eq, Structural)]
pub enum Attempt {
    /// There is no credential header.
    NoAttempt,
    /// The header holds a token that verifies, of this user.
    AuthenticatedAs(AuthUser),
    /// There is a header, and it was not accepted.
    FailedAttempt,
}

/// A byte that may stand in a header value that is read as text: visible
/// ASCII, a blank or a tab.
pub open spec fn is_visible_ascii(b: u8) -> bool {
    (32 <= b && b < 127) || b == 9
}

/// Whether the header value begins with the scheme.
pub open spec fn starts_with_scheme(header: Seq<u8>) -> bool {
    &&& header.len() >= SCHEME_PREFIX@.len()
    &&& forall|i: int| 0 <= i < SCHEME_PREFIX@.len() ==> header[i] as char == SCHEME_PREFIX@[i]
}

/// The token that a header value carries: what follows the scheme, where
/// the value is text and begins with it.
pub open spec fn bearer_token(header: Seq<u8>) -> Option<Seq<char>> {
    if (forall|i: int| 0 <= i < header.len() ==> is_visible_ascii(#[trigger] header[i]))
        && starts_with_scheme(header) {
        Some(header.skip(SCHEME_PREFIX@.len() as int).map_values(|b: u8| b as char))
    } else {
        None
    }
}

/// The bytes of a header value, if there is one.
pub open spec fn header_view(auth_header: Option<&[u8]>) -> Option<Seq<u8>> {
    match auth_header {
        Some(value) => Some(value@),
        None => None,
    }
}

/// What a credential header amounts to at the time `now`, under a key.
pub open spec fn attempted(key: Seq<u8>, header: Option<Seq<u8>>, now: i64) -> Attempt {
    match header {
        None => Attempt::NoAttempt,
        Some(value) => match bearer_token(value) {
            None => Attempt::FailedAttempt,
            Some(token) => match verified(key, token, now) {
                Ok(user_id) => Attempt::AuthenticatedAs(AuthUser { user_id }),
                Err(_) => Attempt::FailedAttempt,
            },
        },
    }
}

/// The outcome for a request that must be authenticated. Why an attempt
/// failed is not told apart.
pub open spec fn required(attempt: Attempt) -> Result<AuthUser, Error> {
    match attempt {
        Attempt::AuthenticatedAs(user) => Ok(user),
        _ => Err(Error::Unauthorized),
    }
}

/// The outcome for a request that may be anonymous: only the absence of a
/// header makes it so.
pub open spec fn optional(attempt: Attempt) -> Result<MaybeAuthUser, Error> {
    match attempt {
        Attempt::NoAttempt => Ok(MaybeAuthUser(None)),
        Attempt::AuthenticatedAs(user) => Ok(MaybeAuthUser(Some(user))),
        Attempt::FailedAttempt => Err(Error::Unauthorized),
    }
}

/// The token in a header value, if the value is text that begins with the
/// scheme.
fn header_token(auth_header: &[u8]) -> (token: Option<String>)
    ensures
        match token {
            Some(t) => bearer_token(auth_header@) == Some(t@),
            None => bearer_token(auth_header@) is None,
        },
{
    let mut i: usize = 0;
    while i < auth_header.len()
        invariant
            i <= auth_header.len(),
            forall|j: int| 0 <= j < i ==> is_visible_ascii(#[trigger] auth_header@[j]),
        decreases auth_header.len() - i,
    {
        let b = auth_header[i];
        if !((32 <= b && b < 127) || b == 9) {
            return None;
        }
        i = i + 1;
    }
    let prefix = chars_of(SCHEME_PREFIX);
    if auth_header.len() < prefix.len() {
        return None;
    }
    let mut i: usize = 0;
    while i < prefix.len()
        invariant
            prefix@ == SCHEME_PREFIX@,
            i <= prefix.len() <= auth_header.len(),
            forall|j: int| 0 <= j < i ==> auth_header@[j] as char == prefix@[j],
        decreases prefix.len() - i,
    {
        if auth_header[i] as char != prefix[i] {
            return None;
        }
        i = i + 1;
    }
    let mut token = String::new();
    let ghost rest = auth_header@.skip(prefix.len() as int).map_values(|b: u8| b as char);
    let mut i: usize = prefix.len();
    while i < auth_header.len()
        invariant
            prefix.len() <= i <= auth_header.len(),
            rest == auth_header@.skip(prefix.len() as int).map_values(|b: u8| b as char),
            token@ == rest.take(i - prefix.len()),
        decreases auth_header.len() - i,
    {
        push_char(&mut token, auth_header[i] as char);
        assert(rest.take(i - prefix.len()).push(auth_header@[i as int] as char) =~= rest.take(
            i + 1 - prefix.len(),
        ));
        i = i + 1;
    }
    assert(rest.take(rest.len() as int) =~= rest);
    Some(token)
}

/// Reads a request's credential header at the time `now`.
pub fn attempt_at(codec: &TokenCodec, auth_header: Option<&[u8]>, now: i64) -> (attempt: Attempt)
    ensures
        attempt == attempted(
            codec.key(),
            header_view(auth_header),
            now,
        ),
{
    match auth_header {
        None => Attempt::NoAttempt,
        Some(value) => match header_token(value) {
            None => Attempt::FailedAttempt,
            Some(token) => match codec.verify_at(token.as_str(), now) {
                Ok(user_id) => Attempt::AuthenticatedAs(AuthUser { user_id }),
                Err(_) => Attempt::FailedAttempt,
            },
        },
    }
}

impl AuthUser {
    /// A fresh session token for this user, issued by the clock.
    pub fn to_jwt(&self, codec: &TokenCodec) -> (token: String)
        ensures
            exists|now: i64| token@ == issued(codec.key(), self.user_id, now),
    {
        codec.issue(self.user_id)
    }

    /// Attempt to parse `Self` from the value of an `Authorization` header,
    /// at the time `now`.
    ///
    /// A value that is not text, another scheme, a token that cannot be
    /// read or does not verify, and one that has expired all give
    /// `Error::Unauthorized`.
    pub fn from_authorization_at(codec: &TokenCodec, auth_header: &[u8], now: i64) -> (r: Result<
        AuthUser,
        Error,
    >)
        ensures
            r == required(attempted(codec.key(), Some(auth_header@), now)),
    {
        Self::from_request_at(codec, Some(auth_header), now)
    }

    /// Attempt to parse `Self` from the value of an `Authorization` header,
    /// by the clock.
    pub fn from_authorization(codec: &TokenCodec, auth_header: &[u8]) -> (r: Result<AuthUser, Error>)
        ensures
            exists|now: i64| r == required(attempted(codec.key(), Some(auth_header@), now)),
    {
        let now = crate::token::unix_now();
        Self::from_authorization_at(codec, auth_header, now)
    }

    /// The caller of a request that must be authenticated, from the value
    /// of its `Authorization` header if it has one, at the time `now`.
    pub fn from_request_at(codec: &TokenCodec, auth_header: Option<&[u8]>, now: i64) -> (r: Result<
        AuthUser,
        Error,
    >)
        ensures
            r == required(
                attempted(
                    codec.key(),
                    header_view(auth_header),
                    now,
                ),
            ),
    {
        match attempt_at(codec, auth_header, now) {
            Attempt::AuthenticatedAs(user) => Ok(user),
            _ => Err(Error::Unauthorized),
        }
    }

    /// The caller of a request that must be authenticated, by the clock.
    pub fn from_request(codec: &TokenCodec, auth_header: Option<&[u8]>) -> (r: Result<AuthUser, Error>)
        ensures
            exists|now: i64|
                #![trigger attempted(codec.key(), header_view(auth_header), now)]
                r == required(
                    attempted(
                        codec.key(),
                        header_view(auth_header),
                        now,
                    ),
                ),
            auth_header is None ==> r == Err::<AuthUser, Error>(Error::Unauthorized),
    {
        let now = crate::token::unix_now();
        Self::from_request_at(codec, auth_header, now)
    }
}

impl MaybeAuthUser {
    /// If this is `Self(Some(AuthUser))`, return `AuthUser::user_id`
    pub fn user_id(&self) -> (id: Option<u128>)
        ensures
            id == match self.0 {
                Some(auth_user) => Some(auth_user.user_id),
                None => None,
            },
    {
        match self.0 {
            Some(auth_user) => Some(auth_user.user_id),
            None => None,
        }
    }

    /// The caller of a request that may be anonymous, from the value of its
    /// `Authorization` header if it has one, at the time `now`.
    pub fn from_request_at(codec: &TokenCodec, auth_header: Option<&[u8]>, now: i64) -> (r: Result<
        MaybeAuthUser,
        Error,
    >)
        ensures
            r == optional(
                attempted(
                    codec.key(),
                    header_view(auth_header),
                    now,
                ),
            ),
    {
        match attempt_at(codec, auth_header, now) {
            Attempt::NoAttempt => Ok(MaybeAuthUser(None)),
            Attempt::AuthenticatedAs(user) => Ok(MaybeAuthUser(Some(user))),
            Attempt::FailedAttempt => Err(Error::Unauthorized),
        }
    }

    /// The caller of a request that may be anonymous, by the clock.
    pub fn from_request(codec: &TokenCodec, auth_header: Option<&[u8]>) -> (r: Result<
        MaybeAuthUser,
        Error,
    >)
        ensures
            exists|now: i64|
                #![trigger attempted(codec.key(), header_view(auth_header), now)]
                r == optional(
                    attempted(
                        codec.key(),
                        header_view(auth_header),
                        now,
                    ),
                ),
            auth_header is None ==> r == Ok::<MaybeAuthUser, Error>(MaybeAuthUser(None)),
    {
        let now = crate::token::unix_now();
        Self::from_request_at(codec, auth_header, now)
    }
}

} // verus!
