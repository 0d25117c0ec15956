//! Credential tokens: compact signed texts that carry who the bearer is and
//! until when the token counts.
//!
//! A token is a JSON Web Token signed with HMAC-SHA256 under the service's
//! secret. It holds three claims: `sub`, the bearer's identifier written as a
//! UUID; `email`, the bearer's address; and `exp`, the second at which the
//! token stops counting. Signing and reading the token is the work of the
//! `jsonwebtoken` crate; what the claims mean, and the check against the
//! clock, are decided here. The clock itself is read by the caller, who
//! hands the reading in: nothing here depends on anything but its arguments.

use crate::utils::ids::{parse_uuid, uuid_format, uuid_parsing, uuid_text};
use vstd::prelude::*;

verus! {

/// How long a token counts after it was issued: thirty days, in seconds.
pub const TOKEN_VALIDITY_SECONDS: u64 = 2_592_000;

/// Who a token speaks for.
#[derive(Debug, Clone, PartialEq, Eq)]
pub struct JwtPayload {
    pub email: String,
    pub user_id: u128,
}

/// The mathematical value of a `JwtPayload`.
pub struct Subject {
    pub email: Seq<char>,
    pub user_id: u128,
}

impl View for JwtPayload {
    type V = Subject;

    open spec fn view(&self) -> Subject {
        Subject { email: self.email@, user_id: self.user_id }
    }
}

/// What a token states: its subject, and the second at which it expires.
#[derive(Debug, Clone, PartialEq, Eq)]
pub struct Claims {
    pub sub: JwtPayload,
    pub exp: u64,
}

/// The claims as they are read out of a token, each one absent where the
/// token does not hold it in the expected form.
#[derive(Debug, Clone, PartialEq, Eq)]
pub struct TokenClaims {
    pub sub: Option<String>,
    pub email: Option<String>,
    pub exp: Option<u64>,
}

/// The value of an optional text.
pub open spec fn text_of(text: Option<String>) -> Option<Seq<char>> {
    match text {
        Some(t) => Some(t@),
        None => None,
    }
}

impl View for TokenClaims {
    type V = (Option<Seq<char>>, Option<Seq<char>>, Option<u64>);

    open spec fn view(&self) -> Self::V {
        (text_of(self.sub), text_of(self.email), self.exp)
    }
}

/// The token that the three claims make under a secret; `None` where the
/// `jsonwebtoken` crate fails to write one.
pub uninterp spec fn jwt_encoding(
    sub: Seq<char>,
    email: Seq<char>,
    exp: u64,
    secret: Seq<char>,
) -> Option<Seq<char>>;

/// What reading a token under a secret gives, the clock left aside: the
/// claims `sub`, `email` and `exp` of a well-formed token that was signed
/// with this secret, or the reason for which the token is refused.
pub uninterp spec fn jwt_decoding(token: Seq<char>, secret: Seq<char>) -> Result<
    (Option<Seq<char>>, Option<Seq<char>>, Option<u64>),
    Seq<char>,
>;

/// `jsonwebtoken::encode` with the default header (HMAC-SHA256) on the
/// claims `sub`, `email` and `exp`. Trusted: the token depends on the claims
/// and the secret alone, and a token written under a secret reads back under
/// the same secret as the claims it was written from.
#[verifier::external_body]
fn encode_claims(sub: &str, email: &str, exp: u64, secret: &str) -> (token: Option<String>)
    ensures
        text_of(token) == jwt_encoding(sub@, email@, exp, secret@),
        token matches Some(t) ==> (jwt_decoding(t@, secret@) matches Ok(claims) && claims == (
            Some(sub@),
            Some(email@),
            Some(exp),
        )),
{
    let mut claims = serde_json::Map::new();
    claims.insert("sub".to_string(), serde_json::Value::from(sub));
    claims.insert("email".to_string(), serde_json::Value::from(email));
    claims.insert("exp".to_string(), serde_json::Value::from(exp));
    let key = jsonwebtoken::EncodingKey::from_secret(secret.as_bytes());
    jsonwebtoken::encode(&jsonwebtoken::Header::default(), &claims, &key).ok()
}

/// `jsonwebtoken::decode` for HMAC-SHA256 with the check of `exp` against
/// the clock switched off. Trusted: the answer depends on the token and the
/// secret alone; an error comes back as the text the crate gives it.
#[verifier::external_body]
fn decode_claims(token: &str, secret: &str) -> (r: Result<TokenClaims, String>)
    ensures
        match r {
            Ok(claims) => jwt_decoding(token@, secret@) matches Ok(read) && read == claims@,
            Err(reason) => jwt_decoding(token@, secret@) matches Err(refusal) && refusal == reason@,
        },
{
    let mut rules = jsonwebtoken::Validation::default();
    rules.validate_exp = false;
    let key = jsonwebtoken::DecodingKey::from_secret(secret.as_bytes());
    match jsonwebtoken::decode::<serde_json::Value>(token, &key, &rules) {
        Ok(data) => Ok(TokenClaims {
            sub: data.claims.get("sub").and_then(|v| v.as_str()).map(String::from),
            email: data.claims.get("email").and_then(|v| v.as_str()).map(String::from),
            exp: data.claims.get("exp").and_then(|v| v.as_u64()),
        }),
        Err(e) => Err(e.to_string()),
    }
}

/// The second that a reading of the clock stands for. A clock gives seconds
/// since 1970 as a signed number; a reading below zero counts as second 0.
pub open spec fn second(reading: i64) -> u64 {
    if reading < 0 {
        0
    } else {
        reading as u64
    }
}

/// The second that a reading of the clock stands for.
pub fn second_of(reading: i64) -> (now: u64)
    ensures
        now == second(reading),
        now + TOKEN_VALIDITY_SECONDS <= u64::MAX,
{
    if reading < 0 {
        0
    } else {
        reading as u64
    }
}

/// The value of a verification result.
pub open spec fn verdict_of(r: Result<JwtPayload, String>) -> Result<Subject, Seq<char>> {
    match r {
        Ok(payload) => Ok(payload@),
        Err(reason) => Err(reason@),
    }
}

/// What verifying a token at the second `now` gives, from what reading the
/// token gave. A token that could not be read is refused for the reader's
/// reason. One that could is refused once `now` has reached its `exp`, and
/// where a claim is missing or `sub` is no identifier; else its subject
/// comes back.
pub open spec fn verification(
    decoded: Result<(Option<Seq<char>>, Option<Seq<char>>, Option<u64>), Seq<char>>,
    now: u64,
) -> Result<Subject, Seq<char>> {
    match decoded {
        Err(reason) => Err(reason),
        Ok((_, _, None)) => Err("Missing required claim: exp"@),
        Ok((sub, email, Some(exp))) => if now >= exp {
            Err("ExpiredSignature"@)
        } else {
            match (sub, email) {
                (None, _) => Err("Missing required claim: sub"@),
                (Some(_), None) => Err("Missing required claim: email"@),
                (Some(id_text), Some(address)) => match uuid_parsing(id_text) {
                    None => Err("InvalidSubject"@),
                    Some(id) => Ok(Subject { email: address, user_id: id }),
                },
            }
        },
    }
}

/// The token issued for a subject at the second `now`.
pub open spec fn issued_token(subject: Subject, secret: Seq<char>, now: u64) -> Option<Seq<char>>
    recommends
        now + TOKEN_VALIDITY_SECONDS <= u64::MAX,
{
    jwt_encoding(
        uuid_format(subject.user_id),
        subject.email,
        (now + TOKEN_VALIDITY_SECONDS) as u64,
        secret,
    )
}

/// The claims of a token issued for `data` at the second `now`.
pub fn claims_at(data: JwtPayload, now: u64) -> (claims: Claims)
    requires
        now + TOKEN_VALIDITY_SECONDS <= u64::MAX,
    ensures
        claims.sub == data,
        claims.exp == now + TOKEN_VALIDITY_SECONDS,
{
    Claims { sub: data, exp: now + TOKEN_VALIDITY_SECONDS }
}

/// Writes and signs the token for the given claims. The token verifies under
/// the same secret to the subject it was issued for at every second before
/// `claims.exp`, and is refused from that second on.
pub fn sign_claims(claims: &Claims, secret: &str) -> (r: Result<String, String>)
    ensures
        match r {
            Ok(token) => jwt_encoding(
                uuid_format(claims.sub.user_id),
                claims.sub.email@,
                claims.exp,
                secret@,
            ) == Some(token@),
            Err(reason) => jwt_encoding(
                uuid_format(claims.sub.user_id),
                claims.sub.email@,
                claims.exp,
                secret@,
            ) is None && reason@ == "Error encoding jwt token"@,
        },
        r matches Ok(token) ==> forall|at: u64|
            at < claims.exp ==> #[trigger] verification(jwt_decoding(token@, secret@), at) == Ok::<
                Subject,
                Seq<char>,
            >(claims.sub@),
        r matches Ok(token) ==> forall|at: u64|
            at >= claims.exp ==> (#[trigger] verification(
                jwt_decoding(token@, secret@),
                at,
            )) is Err,
{
    let id_text = uuid_text(claims.sub.user_id);
    match encode_claims(id_text.as_str(), claims.sub.email.as_str(), claims.exp, secret) {
        Some(token) => Ok(token),
        None => Err("Error encoding jwt token".to_owned()),
    }
}

/// Issues the token for `data` at the second `now`: it expires thirty days
/// later.
pub fn sign_at(data: JwtPayload, secret: &str, now: u64) -> (r: Result<String, String>)
    requires
        now + TOKEN_VALIDITY_SECONDS <= u64::MAX,
    ensures
        match r {
            Ok(token) => issued_token(data@, secret@, now) == Some(token@),
            Err(reason) => issued_token(data@, secret@, now) is None && reason@
                == "Error encoding jwt token"@,
        },
        r matches Ok(token) ==> forall|at: u64|
            at < now + TOKEN_VALIDITY_SECONDS ==> #[trigger] verification(
                jwt_decoding(token@, secret@),
                at,
            ) == Ok::<Subject, Seq<char>>(data@),
        r matches Ok(token) ==> forall|at: u64|
            at >= now + TOKEN_VALIDITY_SECONDS ==> (#[trigger] verification(
                jwt_decoding(token@, secret@),
                at,
            )) is Err,
{
    let claims = claims_at(data, now);
    sign_claims(&claims, secret)
}

/// Issues the token for `data` at a reading of the clock: it expires thirty
/// days after that second. Fails only where the token cannot be written.
pub fn sign(data: JwtPayload, secret: &str, reading: i64) -> (r: Result<String, String>)
    ensures
        match r {
            Ok(token) => issued_token(data@, secret@, second(reading)) == Some(token@),
            Err(reason) => issued_token(data@, secret@, second(reading)) is None && reason@
                == "Error encoding jwt token"@,
        },
        r matches Ok(token) ==> forall|at: u64|
            at < second(reading) + TOKEN_VALIDITY_SECONDS ==> #[trigger] verification(
                jwt_decoding(token@, secret@),
                at,
            ) == Ok::<Subject, Seq<char>>(data@),
        r matches Ok(token) ==> forall|at: u64|
            at >= second(reading) + TOKEN_VALIDITY_SECONDS ==> (#[trigger] verification(
                jwt_decoding(token@, secret@),
                at,
            )) is Err,
{
    sign_at(data, secret, second_of(reading))
}

/// Judges the claims read out of a token at the second `now`.
pub fn check_claims(claims: TokenClaims, now: u64) -> (r: Result<JwtPayload, String>)
    ensures
        verdict_of(r) == verification(Ok(claims@), now),
{
    match claims.exp {
        None => Err("Missing required claim: exp".to_owned()),
        Some(exp) => {
            if now >= exp {
                Err("ExpiredSignature".to_owned())
            } else {
                match (claims.sub, claims.email) {
                    (None, _) => Err("Missing required claim: sub".to_owned()),
                    (Some(_), None) => Err("Missing required claim: email".to_owned()),
                    (Some(id_text), Some(address)) => match parse_uuid(id_text.as_str()) {
                        None => Err("InvalidSubject".to_owned()),
                        Some(id) => Ok(JwtPayload { email: address, user_id: id }),
                    },
                }
            }
        },
    }
}

/// Verifies a token at the second `now`.
pub fn verify_at(token: &str, secret: &str, now: u64) -> (r: Result<JwtPayload, String>)
    ensures
        verdict_of(r) == verification(jwt_decoding(token@, secret@), now),
{
    match decode_claims(token, secret) {
        Err(reason) => Err(reason),
        Ok(claims) => check_claims(claims, now),
    }
}

/// Verifies a token at a reading of the clock. Nothing is read or written:
/// the answer depends on the token, the secret and the reading alone.
pub fn verify(token: &str, secret: &str, reading: i64) -> (r: Result<JwtPayload, String>)
    ensures
        verdict_of(r) == verification(jwt_decoding(token@, secret@), second(reading)),
{
    verify_at(token, secret, second_of(reading))
}

/// A token is never accepted at or after its expiry, whatever else it holds
/// and whoever signed it: where verification succeeds, the token was read
/// under the secret, and the second of verification lies before its `exp`.
pub proof fn expired_token_is_refused(
    decoded: Result<(Option<Seq<char>>, Option<Seq<char>>, Option<u64>), Seq<char>>,
    now: u64,
)
    ensures
        verification(decoded, now) is Ok ==> (decoded matches Ok((_, _, Some(exp))) && now < exp),
        (decoded matches Ok((_, _, Some(exp))) && now >= exp) ==> verification(decoded, now) is Err,
        decoded is Err ==> verification(decoded, now) is Err,
{
}

/// Verification gives back exactly what the token holds. Where the claims
/// read from a token are a subject's address, the text of its identifier,
/// and an `exp` that lies ahead, and that text reads back as the identifier,
/// verification yields that subject.
pub proof fn verification_returns_subject(subject: Subject, exp: u64, now: u64)
    requires
        now < exp,
        uuid_parsing(uuid_format(subject.user_id)) == Some(subject.user_id),
    ensures
        verification(
            Ok((Some(uuid_format(subject.user_id)), Some(subject.email), Some(exp))),
            now,
        ) == Ok::<Subject, Seq<char>>(subject),
{
}

} // verus!
