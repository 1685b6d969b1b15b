use hmac::{Hmac, Mac};
use jwt::{SignWithKey, VerifyWithKey};
use realworld_axum_sqlx::token::{check_claims, TokenCodec, TokenError, DEFAULT_SESSION_LENGTH};
use sha2::{Sha256, Sha384};

const U1: u128 = 0x67e55044_10b1_426f_9247_bb680e5fe0c8;
const NOW: i64 = 1_700_000_000;

fn claims(subject: &str, exp: i64) -> serde_json::Map<String, serde_json::Value> {
    let mut claims = serde_json::Map::new();
    claims.insert("user_id".to_string(), serde_json::Value::from(subject));
    claims.insert("exp".to_string(), serde_json::Value::from(exp));
    claims
}

fn signed_by_hand(key: &[u8], subject: &str, exp: i64) -> String {
    let key: Hmac<Sha384> = Hmac::new_from_slice(key).unwrap();
    claims(subject, exp).sign_with_key(&key).unwrap()
}

#[test]
fn session_lasts_two_weeks() {
    assert_eq!(DEFAULT_SESSION_LENGTH, 14 * 24 * 60 * 60);
}

#[test]
fn issued_token_verifies_at_once() {
    let codec = TokenCodec::new("secret");
    let token = codec.issue_at(U1, NOW);
    assert_eq!(codec.verify_at(&token, NOW), Ok(U1));
}

#[test]
fn issued_token_verifies_by_the_clock() {
    let codec = TokenCodec::new("secret");
    let token = codec.issue(U1);
    assert_eq!(codec.verify(&token), Ok(U1));
}

#[test]
fn issued_token_verifies_for_many_subjects() {
    let codec = TokenCodec::new("another key");
    for subject in [0u128, 1, U1, u128::MAX, 1 << 64, 0xdead_beef] {
        let token = codec.issue_at(subject, NOW);
        assert_eq!(codec.verify_at(&token, NOW), Ok(subject));
        assert_eq!(codec.verify_at(&token, NOW + DEFAULT_SESSION_LENGTH), Ok(subject));
    }
}

#[test]
fn token_expires_after_the_session_length() {
    let codec = TokenCodec::new("secret");
    let token = codec.issue_at(U1, NOW);
    // Valid up to and including the second of expiry, expired from the next one on.
    assert_eq!(codec.verify_at(&token, NOW + DEFAULT_SESSION_LENGTH), Ok(U1));
    assert_eq!(
        codec.verify_at(&token, NOW + DEFAULT_SESSION_LENGTH + 1),
        Err(TokenError::ExpiredToken)
    );
}

#[test]
fn token_with_expiry_one_hour_ago_is_expired() {
    let codec = TokenCodec::new("secret");
    let token = signed_by_hand(b"secret", "67e55044-10b1-426f-9247-bb680e5fe0c8", NOW - 3600);
    assert_eq!(codec.verify_at(&token, NOW), Err(TokenError::ExpiredToken));
    // The same token was good before its expiry.
    assert_eq!(codec.verify_at(&token, NOW - 3600), Ok(U1));
}

#[test]
fn issued_token_is_what_the_jwt_crate_signs() {
    let codec = TokenCodec::new("secret");
    let token = codec.issue_at(U1, NOW);
    assert_eq!(
        token,
        signed_by_hand(
            b"secret",
            "67e55044-10b1-426f-9247-bb680e5fe0c8",
            NOW + 1_209_600
        )
    );
    let key: Hmac<Sha384> = Hmac::new_from_slice(b"secret").unwrap();
    let read: serde_json::Map<String, serde_json::Value> =
        token.as_str().verify_with_key(&key).unwrap();
    assert_eq!(read, claims("67e55044-10b1-426f-9247-bb680e5fe0c8", NOW + 1_209_600));
}

#[test]
fn issuing_is_deterministic() {
    let codec = TokenCodec::new("secret");
    assert_eq!(codec.issue_at(U1, NOW), codec.issue_at(U1, NOW));
    assert_ne!(codec.issue_at(U1, NOW), codec.issue_at(U1, NOW + 1));
    assert_ne!(codec.issue_at(U1, NOW), codec.issue_at(U1 + 1, NOW));
}

#[test]
fn token_of_another_key_is_invalid() {
    let token = TokenCodec::new("secret").issue_at(U1, NOW);
    assert_eq!(
        TokenCodec::new("Secret").verify_at(&token, NOW),
        Err(TokenError::InvalidToken)
    );
}

#[test]
fn token_of_another_algorithm_is_invalid() {
    let key: Hmac<Sha256> = Hmac::new_from_slice(b"secret").unwrap();
    let token = claims("67e55044-10b1-426f-9247-bb680e5fe0c8", NOW + 60)
        .sign_with_key(&key)
        .unwrap();
    assert_eq!(
        TokenCodec::new("secret").verify_at(&token, NOW),
        Err(TokenError::InvalidToken)
    );
}

#[test]
fn malformed_tokens_are_invalid() {
    let codec = TokenCodec::new("secret");
    for token in ["", "a", "a.b", "a.b.c", "a.b.c.d", "....", "not a token"] {
        assert_eq!(codec.verify_at(token, NOW), Err(TokenError::InvalidToken));
    }
}

#[test]
fn token_without_a_claim_is_invalid() {
    let codec = TokenCodec::new("secret");
    let key: Hmac<Sha384> = Hmac::new_from_slice(b"secret").unwrap();

    let mut no_expiry = serde_json::Map::new();
    no_expiry.insert(
        "user_id".to_string(),
        serde_json::Value::from("67e55044-10b1-426f-9247-bb680e5fe0c8"),
    );
    let token = no_expiry.sign_with_key(&key).unwrap();
    assert_eq!(codec.verify_at(&token, NOW), Err(TokenError::InvalidToken));

    let mut no_subject = serde_json::Map::new();
    no_subject.insert("exp".to_string(), serde_json::Value::from(NOW + 60));
    let token = no_subject.sign_with_key(&key).unwrap();
    assert_eq!(codec.verify_at(&token, NOW), Err(TokenError::InvalidToken));

    let token = signed_by_hand(b"secret", "not a uuid", NOW + 60);
    assert_eq!(codec.verify_at(&token, NOW), Err(TokenError::InvalidToken));
}

#[test]
fn every_single_bit_change_of_the_signature_is_invalid() {
    let codec = TokenCodec::new("secret");
    let token = codec.issue_at(U1, NOW);
    let start = token.rfind('.').unwrap() + 1;
    assert_eq!(token.len() - start, 64);
    let mut tried = 0;
    for at in start..token.len() {
        for bit in 0..8 {
            let mut bytes = token.clone().into_bytes();
            bytes[at] ^= 1 << bit;
            if let Ok(changed) = String::from_utf8(bytes) {
                assert_eq!(
                    codec.verify_at(&changed, NOW),
                    Err(TokenError::InvalidToken),
                    "byte {} bit {}",
                    at,
                    bit
                );
                tried += 1;
            }
        }
    }
    // Flipping the top bit leaves no text; every other change was tried.
    assert_eq!(tried, 64 * 7);
}

#[test]
fn a_changed_payload_is_invalid() {
    let codec = TokenCodec::new("secret");
    let token = codec.issue_at(U1, NOW);
    let other = codec.issue_at(U1 + 1, NOW);
    let signature = &token[token.rfind('.').unwrap()..];
    let forged = format!("{}{}", &other[..other.rfind('.').unwrap()], signature);
    assert_eq!(codec.verify_at(&forged, NOW), Err(TokenError::InvalidToken));
}

#[test]
fn check_claims_decides_by_the_expiry() {
    assert_eq!(check_claims(Some(7), Some(100), 99), Ok(7));
    assert_eq!(check_claims(Some(7), Some(100), 100), Ok(7));
    assert_eq!(check_claims(Some(7), Some(100), 101), Err(TokenError::ExpiredToken));
    assert_eq!(check_claims(Some(7), Some(-5), -6), Ok(7));
    assert_eq!(check_claims(None, Some(100), 0), Err(TokenError::InvalidToken));
    assert_eq!(check_claims(Some(7), None, 0), Err(TokenError::InvalidToken));
    assert_eq!(check_claims(None, None, 0), Err(TokenError::InvalidToken));
    // A missing claim counts before the expiry does.
    assert_eq!(check_claims(None, Some(0), 100), Err(TokenError::InvalidToken));
}
