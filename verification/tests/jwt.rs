use backend::utils::jwt::{
    check_claims, second_of, sign_at, verify_at, JwtPayload, TokenClaims, TOKEN_VALIDITY_SECONDS,
};
use backend::utils::{sign, verify};

const SECRET: &str = "top-secret";
const USER: u128 = 0x67e55044_10b1_426f_9247_bb680e5fe0c8;

fn payload() -> JwtPayload {
    JwtPayload { email: "ann@example.org".to_string(), user_id: USER }
}

#[test]
fn issued_token_verifies_to_its_subject() {
    let token = sign_at(payload(), SECRET, 1_000).unwrap();
    let back = verify_at(&token, SECRET, 1_000).unwrap();
    assert_eq!(back.email, "ann@example.org");
    assert_eq!(back.user_id, USER);
}

#[test]
fn issued_token_verifies_until_the_last_second() {
    let token = sign_at(payload(), SECRET, 1_000).unwrap();
    let last = 1_000 + TOKEN_VALIDITY_SECONDS - 1;
    let back = verify_at(&token, SECRET, last).unwrap();
    assert_eq!(back.user_id, USER);
    assert_eq!(back.email, "ann@example.org");
}

#[test]
fn token_is_refused_at_its_expiry() {
    let token = sign_at(payload(), SECRET, 1_000).unwrap();
    let r = verify_at(&token, SECRET, 1_000 + TOKEN_VALIDITY_SECONDS);
    assert_eq!(r.err(), Some("ExpiredSignature".to_string()));
}

#[test]
fn token_is_refused_long_after_its_expiry() {
    let token = sign_at(payload(), SECRET, 1_000).unwrap();
    let r = verify_at(&token, SECRET, u64::MAX);
    assert_eq!(r.err(), Some("ExpiredSignature".to_string()));
}

#[test]
fn token_under_another_secret_is_refused() {
    let token = sign_at(payload(), SECRET, 1_000).unwrap();
    let r = verify_at(&token, "other", 1_000);
    assert_eq!(r.err(), Some("InvalidSignature".to_string()));
}

#[test]
fn expired_token_under_another_secret_is_refused() {
    let token = sign_at(payload(), SECRET, 1_000).unwrap();
    assert!(verify_at(&token, "other", u64::MAX).is_err());
}

#[test]
fn malformed_token_is_refused() {
    let r = verify_at("abc", SECRET, 0);
    assert_eq!(r.err(), Some("InvalidToken".to_string()));
    assert!(verify_at("", SECRET, 0).is_err());
    assert!(verify_at("a.b.c", SECRET, 0).is_err());
}

#[test]
fn tampered_token_is_refused() {
    let token = sign_at(payload(), SECRET, 1_000).unwrap();
    let mut tampered = token.clone();
    let last = tampered.pop().unwrap();
    tampered.push(if last == 'A' { 'B' } else { 'A' });
    assert!(verify_at(&tampered, SECRET, 1_000).is_err());
}

#[test]
fn token_has_three_parts_and_depends_on_its_inputs() {
    let a = sign_at(payload(), SECRET, 1_000).unwrap();
    let b = sign_at(payload(), SECRET, 1_000).unwrap();
    let c = sign_at(payload(), SECRET, 1_001).unwrap();
    assert_eq!(a, b);
    assert_ne!(a, c);
    assert_eq!(a.split('.').count(), 3);
    assert_ne!(a, "ann@example.org");
}

#[test]
fn subject_with_unusual_text_round_trips() {
    let data = JwtPayload { email: "\"quoted\" \\ \u{e9}\n@x".to_string(), user_id: 0 };
    let token = sign_at(data, SECRET, 5).unwrap();
    let back = verify_at(&token, SECRET, 6).unwrap();
    assert_eq!(back.email, "\"quoted\" \\ \u{e9}\n@x");
    assert_eq!(back.user_id, 0);
    let data = JwtPayload { email: String::new(), user_id: u128::MAX };
    let token = sign_at(data, "", 5).unwrap();
    let back = verify_at(&token, "", 6).unwrap();
    assert_eq!(back.email, "");
    assert_eq!(back.user_id, u128::MAX);
}

#[test]
fn sign_and_verify_at_a_reading_of_the_clock() {
    let reading = chrono::Utc::now().timestamp();
    let token = sign(payload(), SECRET, reading).unwrap();
    let back = verify(&token, SECRET, reading).unwrap();
    assert_eq!(back.user_id, USER);
    assert_eq!(back.email, "ann@example.org");
    assert!(verify(&token, "other", reading).is_err());
    let last = reading + TOKEN_VALIDITY_SECONDS as i64 - 1;
    assert!(verify(&token, SECRET, last).is_ok());
    assert_eq!(
        verify(&token, SECRET, last + 1).err(),
        Some("ExpiredSignature".to_string())
    );
}

#[test]
fn sign_agrees_with_sign_at() {
    assert_eq!(sign(payload(), SECRET, 1_000), sign_at(payload(), SECRET, 1_000));
    assert_eq!(sign(payload(), SECRET, 0), sign_at(payload(), SECRET, 0));
    assert_eq!(
        sign(payload(), SECRET, i64::MAX),
        sign_at(payload(), SECRET, i64::MAX as u64)
    );
}

#[test]
fn reading_below_zero_counts_as_second_zero() {
    assert_eq!(second_of(-1), 0);
    assert_eq!(second_of(i64::MIN), 0);
    assert_eq!(second_of(0), 0);
    assert_eq!(second_of(17), 17);
    assert_eq!(second_of(i64::MAX), i64::MAX as u64);
    assert_eq!(sign(payload(), SECRET, -5), sign_at(payload(), SECRET, 0));
    let token = sign(payload(), SECRET, -5).unwrap();
    assert!(verify(&token, SECRET, -100).is_ok());
    assert!(verify(&token, SECRET, TOKEN_VALIDITY_SECONDS as i64 - 1).is_ok());
    assert!(verify(&token, SECRET, TOKEN_VALIDITY_SECONDS as i64).is_err());
}

#[test]
fn token_expiring_at_the_largest_second() {
    let now = u64::MAX - TOKEN_VALIDITY_SECONDS;
    let token = sign_at(payload(), SECRET, now).unwrap();
    assert!(verify_at(&token, SECRET, u64::MAX - 1).is_ok());
    assert!(verify_at(&token, SECRET, u64::MAX).is_err());
}

#[test]
fn claims_are_judged_in_order() {
    let full = |sub: Option<&str>, email: Option<&str>, exp: Option<u64>| TokenClaims {
        sub: sub.map(String::from),
        email: email.map(String::from),
        exp,
    };
    let id = "67e55044-10b1-426f-9247-bb680e5fe0c8";
    let ok = check_claims(full(Some(id), Some("a@b.cd"), Some(10)), 9).unwrap();
    assert_eq!(ok.user_id, USER);
    assert_eq!(ok.email, "a@b.cd");
    assert_eq!(
        check_claims(full(Some(id), Some("a@b.cd"), None), 9).err(),
        Some("Missing required claim: exp".to_string())
    );
    assert_eq!(
        check_claims(full(None, None, Some(10)), 10).err(),
        Some("ExpiredSignature".to_string())
    );
    assert_eq!(
        check_claims(full(None, Some("a@b.cd"), Some(10)), 9).err(),
        Some("Missing required claim: sub".to_string())
    );
    assert_eq!(
        check_claims(full(Some(id), None, Some(10)), 9).err(),
        Some("Missing required claim: email".to_string())
    );
    assert_eq!(
        check_claims(full(Some("nobody"), Some("a@b.cd"), Some(10)), 9).err(),
        Some("InvalidSubject".to_string())
    );
}

#[test]
fn validity_is_thirty_days() {
    assert_eq!(TOKEN_VALIDITY_SECONDS, 30 * 24 * 60 * 60);
}

#[test]
fn token_holds_the_three_claims() {
    let token = sign_at(payload(), SECRET, 1_000).unwrap();
    let mut rules = jsonwebtoken::Validation::default();
    rules.validate_exp = false;
    let read = jsonwebtoken::decode::<serde_json::Value>(
        &token,
        &jsonwebtoken::DecodingKey::from_secret(SECRET.as_bytes()),
        &rules,
    )
    .unwrap();
    assert_eq!(read.header.alg, jsonwebtoken::Algorithm::HS256);
    assert_eq!(
        read.claims.get("sub").and_then(|v| v.as_str()),
        Some("67e55044-10b1-426f-9247-bb680e5fe0c8")
    );
    assert_eq!(read.claims.get("email").and_then(|v| v.as_str()), Some("ann@example.org"));
    assert_eq!(
        read.claims.get("exp").and_then(|v| v.as_u64()),
        Some(1_000 + TOKEN_VALIDITY_SECONDS)
    );
}

#[test]
fn token_without_a_claim_is_refused() {
    let mut claims = serde_json::Map::new();
    claims.insert("sub".to_string(), serde_json::Value::from("67e55044-10b1-426f-9247-bb680e5fe0c8"));
    claims.insert("exp".to_string(), serde_json::Value::from(5_000u64));
    let token = jsonwebtoken::encode(
        &jsonwebtoken::Header::default(),
        &claims,
        &jsonwebtoken::EncodingKey::from_secret(SECRET.as_bytes()),
    )
    .unwrap();
    assert_eq!(
        verify_at(&token, SECRET, 1_000).err(),
        Some("Missing required claim: email".to_string())
    );
    claims.insert("email".to_string(), serde_json::Value::from("a@b.cd"));
    claims.insert("sub".to_string(), serde_json::Value::from("nobody"));
    let token = jsonwebtoken::encode(
        &jsonwebtoken::Header::default(),
        &claims,
        &jsonwebtoken::EncodingKey::from_secret(SECRET.as_bytes()),
    )
    .unwrap();
    assert_eq!(verify_at(&token, SECRET, 1_000).err(), Some("InvalidSubject".to_string()));
    claims.remove("exp");
    let token = jsonwebtoken::encode(
        &jsonwebtoken::Header::default(),
        &claims,
        &jsonwebtoken::EncodingKey::from_secret(SECRET.as_bytes()),
    )
    .unwrap();
    assert!(verify_at(&token, SECRET, 1_000).is_err());
}
