//! Session tokens: a signed, self-contained statement of who the bearer is
//! and until when. A token is valid by its signature and its expiry alone;
//! the server keeps no list of tokens and cannot call one back before it
//! expires.

use hmac::{Hmac, Mac};
use jwt::{SignWithKey, VerifyWithKey};
use serde::Deserialize;
use sha2::Sha384;
use time::OffsetDateTime;
use uuid::Uuid;
use vstd::prelude::*;
use vstd::string::{StrSliceExecFns, StringSliceAdditionalSpecFns};

verus! {

broadcast use vstd::string::group_string_axioms;

/// How long a session lasts from the moment its token is issued: two weeks,
/// in seconds.
pub const DEFAULT_SESSION_LENGTH: i64 = 1_209_600;

/// The claim that names the bearer.
pub const SUBJECT_CLAIM: &'static str = "user_id";

/// The claim that holds the expiry, in seconds since the Unix epoch.
pub const EXPIRY_CLAIM: &'static str = "exp";

/// Why a token was not accepted.
#[derive(Clone, Copy, Debug, PartialEq, Eq, Structural)]
pub enum TokenError {
    /// The token could not be read, declares another signing algorithm, does
    /// not carry both claims, or its signature does not match.
    InvalidToken,
    /// The signature matches, and the token has expired.
    ExpiredToken,
}

/// The token that `jwt` makes with HMAC over SHA-384 from a key and two
/// claims: the bearer under the first name, as the text of a UUID, and the
/// expiry under the second, as a number.
pub uninterp spec fn hs384_token(
    key: Seq<u8>,
    subject_claim: Seq<char>,
    subject: u128,
    expiry_claim: Seq<char>,
    expiry: i64,
) -> Seq<char>;

/// What `jwt` reads from a token under a key: nothing where it rejects the
/// token; else the UUID under the first name and the integer under the
/// second, each as far as the payload holds one.
pub uninterp spec fn hs384_claims(
    key: Seq<u8>,
    token: Seq<char>,
    subject_claim: Seq<char>,
    expiry_claim: Seq<char>,
) -> Option<(Option<u128>, Option<i64>)>;

/// `jwt`'s `SignWithKey::sign_with_key` on a JSON object of the two claims,
/// with an HMAC-SHA-384 key made from `key` by `Mac::new_from_slice`.
///
/// The result depends on the arguments alone. Where the two names differ,
/// the same key opens the token again and both claims come back as they
/// went in. An HMAC key may have any length and signing with one does not
/// fail, so neither `expect` is reached.
#[verifier::external_body]
fn sign_hs384(key: &[u8], subject_claim: &str, subject: u128, expiry_claim: &str, expiry: i64) -> (token:
    String)
    ensures
        token@ == hs384_token(key@, subject_claim@, subject, expiry_claim@, expiry),
        subject_claim@ != expiry_claim@ ==> hs384_claims(
            key@,
            token@,
            subject_claim@,
            expiry_claim@,
        ) == Some((Some(subject), Some(expiry))),
{
    let hmac = Hmac::<Sha384>::new_from_slice(key).expect("HMAC-SHA-384 can accept any key length");
    let mut claims = serde_json::Map::new();
    let subject = Uuid::from_u128(subject).to_string();
    claims.insert(subject_claim.to_string(), serde_json::Value::from(subject));
    claims.insert(expiry_claim.to_string(), serde_json::Value::from(expiry));
    claims.sign_with_key(&hmac).expect("HMAC signing should be infallible")
}

/// `jwt`'s `VerifyWithKey::verify_with_key` on the token text, with an
/// HMAC-SHA-384 key made from `key`: it parses the three segments, checks
/// that the header declares the key's algorithm, and checks the signature.
/// From the payload of a token that passes, the two claims are picked by
/// name, the first read as a UUID and the second as an integer.
///
/// Whatever error `jwt` gives, the answer is `None`.
///
/// The result depends on the arguments alone.
#[verifier::external_body]
fn open_hs384(key: &[u8], token: &str, subject_claim: &str, expiry_claim: &str) -> (claims: Option<
    (Option<u128>, Option<i64>),
>)
    ensures
        claims == hs384_claims(key@, token@, subject_claim@, expiry_claim@),
{
    let hmac = Hmac::<Sha384>::new_from_slice(key).expect("HMAC-SHA-384 can accept any key length");
    let payload: serde_json::Map<String, serde_json::Value> = token.verify_with_key(&hmac).ok()?;
    let subject = payload.get(subject_claim).and_then(|v| Uuid::deserialize(v).ok());
    let expiry = payload.get(expiry_claim).and_then(|v| v.as_i64());
    Some((subject.map(|id| id.as_u128()), expiry))
}

/// `time`'s `OffsetDateTime::now_utc`, as seconds since the Unix epoch by
/// `unix_timestamp`. That function multiplies a day number that fits 32
/// bits by 86 400 and adds less than two days, which gives the bound.
#[verifier::external_body]
pub(crate) fn unix_now() -> (now: i64)
    ensures
        -0x1_0000_0000_0000 < now < 0x1_0000_0000_0000,
{
    OffsetDateTime::now_utc().unix_timestamp()
}

/// What a verifier makes of the claims it was handed at the time `now`.
pub open spec fn claims_verdict(claims: Option<(Option<u128>, Option<i64>)>, now: i64) -> Result<
    u128,
    TokenError,
> {
    match claims {
        Some((Some(subject), Some(expiry))) => if expiry < now {
            Err(TokenError::ExpiredToken)
        } else {
            Ok(subject)
        },
        _ => Err(TokenError::InvalidToken),
    }
}

/// The token issued for `subject` at the time `now`.
pub open spec fn issued(key: Seq<u8>, subject: u128, now: i64) -> Seq<char> {
    hs384_token(
        key,
        SUBJECT_CLAIM@,
        subject,
        EXPIRY_CLAIM@,
        (now + DEFAULT_SESSION_LENGTH) as i64,
    )
}

/// What verifying `token` at the time `now` gives.
pub open spec fn verified(key: Seq<u8>, token: Seq<char>, now: i64) -> Result<u128, TokenError> {
    claims_verdict(hs384_claims(key, token, SUBJECT_CLAIM@, EXPIRY_CLAIM@), now)
}

/// Decides on the claims of a token whose signature was found good: the
/// bearer, unless a claim is missing or the expiry lies before `now`.
pub fn check_claims(subject: Option<u128>, expiry: Option<i64>, now: i64) -> (r: Result<
    u128,
    TokenError,
>)
    ensures
        r == claims_verdict(Some((subject, expiry)), now),
{
    match (subject, expiry) {
        (Some(subject), Some(expiry)) => {
            if expiry < now {
                Err(TokenError::ExpiredToken)
            } else {
                Ok(subject)
            }
        },
        _ => Err(TokenError::InvalidToken),
    }
}

/// Signs and verifies session tokens with one symmetric key, which is given
/// to it when it is made and read from nowhere else.
pub struct TokenCodec {
    key: Vec<u8>,
}

impl TokenCodec {
    /// The bytes of the signing key.
    pub closed spec fn key(&self) -> Seq<u8> {
        self.key@
    }

    /// A codec for the key `hmac_key`. There is no required structure or
    /// length to the key.
    pub fn new(hmac_key: &str) -> (codec: TokenCodec)
        ensures
            codec.key() == hmac_key.spec_bytes(),
    {
        TokenCodec { key: hmac_key.as_bytes_vec() }
    }

    /// Issues a token for `subject` at the time `now`. It expires
    /// `DEFAULT_SESSION_LENGTH` seconds later.
    ///
    /// Until then the token verifies under this key and names `subject`;
    /// from the next second on it is expired.
    pub fn issue_at(&self, subject: u128, now: i64) -> (token: String)
        requires
            now + DEFAULT_SESSION_LENGTH <= i64::MAX,
        ensures
            token@ == issued(self.key(), subject, now),
            forall|at: i64|
                #![trigger verified(self.key(), token@, at)]
                verified(self.key(), token@, at) == if at <= now + DEFAULT_SESSION_LENGTH {
                    Ok::<u128, TokenError>(subject)
                } else {
                    Err::<u128, TokenError>(TokenError::ExpiredToken)
                },
    {
        proof {
            reveal_strlit("user_id");
            reveal_strlit("exp");
            assert(SUBJECT_CLAIM@.len() != EXPIRY_CLAIM@.len());
        }
        sign_hs384(
            self.key.as_slice(),
            SUBJECT_CLAIM,
            subject,
            EXPIRY_CLAIM,
            now + DEFAULT_SESSION_LENGTH,
        )
    }

    /// Verifies `token` at the time `now`: the bearer it names, or why it
    /// was not accepted.
    pub fn verify_at(&self, token: &str, now: i64) -> (r: Result<u128, TokenError>)
        ensures
            r == verified(self.key(), token@, now),
    {
        match open_hs384(self.key.as_slice(), token, SUBJECT_CLAIM, EXPIRY_CLAIM) {
            Some((subject, expiry)) => check_claims(subject, expiry, now),
            None => Err(TokenError::InvalidToken),
        }
    }

    /// Issues a token for `subject` by the clock.
    pub fn issue(&self, subject: u128) -> (token: String)
        ensures
            exists|now: i64| token@ == issued(self.key(), subject, now),
    {
        let now = unix_now();
        self.issue_at(subject, now)
    }

    /// Verifies `token` by the clock.
    pub fn verify(&self, token: &str) -> (r: Result<u128, TokenError>)
        ensures
            exists|now: i64| r == verified(self.key(), token@, now),
    {
        let now = unix_now();
        self.verify_at(token, now)
    }
}

} // verus!
