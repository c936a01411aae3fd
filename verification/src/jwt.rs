use rand::Rng;
use vstd::prelude::*;

verus! {

/// The claims of a session token: the user, their role and the expiry (Unix seconds).
#[derive(Debug, Clone, Copy, PartialEq, Eq, Structural)]
pub struct Claims {
    pub sub: i64,
    pub role: i64,
    pub exp: usize,
}

/// Why a session token could not be issued or accepted.
#[derive(Debug, Clone, Copy, PartialEq, Eq, Structural)]
pub enum JwtError {
    /// The token library could not encode the claims.
    Encoding,
    /// The token is malformed, carries a wrong signature, or lacks the claims.
    InvalidToken,
    /// The token expired (more than the leeway ago).
    ExpiredSignature,
    /// The system clock gives no usable time (before 1970, or so far out
    /// that the expiry does not fit).
    ClockOutOfRange,
}

#[verifier::external_type_specification]
#[verifier::external_body]
pub struct ExJwtError(jsonwebtoken::errors::Error);

/// How long an issued token stays valid, in seconds.
pub const TOKEN_LIFETIME_SECS: i64 = 86400;

/// The leeway of `jsonwebtoken::Validation::default()`: a token is still
/// accepted up to this many seconds after its expiry.
pub const EXPIRY_LEEWAY_SECS: u64 = 60;

/// The HS256 token that `jsonwebtoken::encode` builds for the claims
/// `{"sub", "role", "exp"}` (in that order) with `secret` as key.
pub uninterp spec fn hs256_token(sub: i64, role: i64, exp: i64, secret: Seq<char>) -> Seq<char>;

/// What `jsonwebtoken::decode` makes of `token` under `secret` with HS256 and
/// without the expiry check: `None` when it rejects the token (malformed, wrong
/// algorithm or signature, no numeric `exp`, or an `aud` claim), `Some(None)`
/// when the claims lack an integer `sub`, an integer `role` or a non-negative
/// integer `exp`, else those three claims.
pub uninterp spec fn hs256_claims(token: Seq<char>, secret: Seq<char>) -> Option<
    Option<(i64, i64, u64)>,
>;

/// `jsonwebtoken::encode` with the default header (HS256) and
/// `EncodingKey::from_secret`, on the claims `sub`, `role`, `exp` (serialized in
/// that order as a JSON object; `serde_json`'s `preserve_order` keeps a map's
/// insertion order). Claimed: it succeeds, and the token is a function of the claims
/// and the secret. In the source, `encode` fails only when the key's family
/// differs from the header's algorithm (both are HMAC here), when serde_json
/// cannot serialize the header or the claims (a map of string keys to integers),
/// or when signing fails, which for HS256 it never does.
#[verifier::external_body]
fn encode_hs256(sub: i64, role: i64, exp: i64, secret: &str) -> (res: Result<
    String,
    jsonwebtoken::errors::Error,
>)
    ensures
        res is Ok,
        res matches Ok(t) ==> t@ == hs256_token(sub, role, exp, secret@),
{
    let mut claims = serde_json::Map::new();
    claims.insert("sub".to_string(), serde_json::Value::from(sub));
    claims.insert("role".to_string(), serde_json::Value::from(role));
    claims.insert("exp".to_string(), serde_json::Value::from(exp));
    let key = jsonwebtoken::EncodingKey::from_secret(secret.as_bytes());
    jsonwebtoken::encode(&jsonwebtoken::Header::default(), &claims, &key)
}

/// `jsonwebtoken::decode` with `DecodingKey::from_secret` and the default
/// validation (HS256, `exp` required) but with the expiry check switched off,
/// reading `sub`, `role` and `exp` out of the claims. Claimed: the result is a
/// function of the token and the secret ([`hs256_claims`]), and a token that
/// [`encode_hs256`] built with the same secret and a non-negative expiry decodes
/// to the claims it was built from (the HMAC signature verifies and the JSON
/// reads back).
#[verifier::external_body]
fn decode_hs256(token: &str, secret: &str) -> (res: Result<
    Option<(i64, i64, u64)>,
    jsonwebtoken::errors::Error,
>)
    ensures
        match res {
            Err(_) => hs256_claims(token@, secret@) is None,
            Ok(c) => hs256_claims(token@, secret@) == Some(c),
        },
        forall|sub: i64, role: i64, exp: i64|
            #![trigger hs256_token(sub, role, exp, secret@)]
            0 <= exp && token@ == hs256_token(sub, role, exp, secret@) ==> res.is_ok()
                && res.unwrap() == Some((sub, role, exp as u64)),
{
    let mut validation = jsonwebtoken::Validation::default();
    validation.validate_exp = false;
    let key = jsonwebtoken::DecodingKey::from_secret(secret.as_bytes());
    let c = jsonwebtoken::decode::<std::collections::HashMap<String, serde_json::Value>>(
        token, &key, &validation)?.claims;
    let sub = c.get("sub").and_then(serde_json::Value::as_i64);
    let role = c.get("role").and_then(serde_json::Value::as_i64);
    let exp = c.get("exp").and_then(serde_json::Value::as_u64);
    Ok(match (sub, role, exp) { (Some(s), Some(r), Some(e)) => Some((s, r, e)), _ => None })
}

/// `SystemTime::now().duration_since(UNIX_EPOCH)`, in whole seconds: `Ok` with
/// the seconds since the epoch, or `Err` with the seconds before it. The time
/// comes from the system clock; nothing is claimed of it.
#[verifier::external_body]
pub(crate) fn system_clock_secs() -> (res: Result<u64, u64>) {
    match std::time::SystemTime::now().duration_since(std::time::UNIX_EPOCH) {
        Ok(d) => Ok(d.as_secs()),
        Err(e) => Err(e.duration().as_secs()),
    }
}

/// The Unix time a clock reading stands for: seconds since 1970 wrap into
/// `i64` as a cast does; seconds before 1970 count negative, down to `i64::MIN`.
pub open spec fn clock_timestamp(clock: Result<u64, u64>) -> int {
    match clock {
        Ok(s) => if s <= i64::MAX {
            s as int
        } else {
            s - 0x1_0000_0000_0000_0000
        },
        Err(b) => if b <= i64::MAX {
            -(b as int)
        } else {
            i64::MIN as int
        },
    }
}

/// Turns a clock reading (`Ok` seconds after 1970, `Err` seconds before) into a
/// Unix timestamp.
pub fn timestamp_from_clock(clock: Result<u64, u64>) -> (res: i64)
    ensures
        res == clock_timestamp(clock),
{
    match clock {
        Ok(s) => if s <= i64::MAX as u64 {
            s as i64
        } else {
            ((s - 0x8000_0000_0000_0000u64) as i64) + i64::MIN
        },
        Err(b) => if b <= i64::MAX as u64 {
            0 - (b as i64)
        } else {
            i64::MIN
        },
    }
}

/// The current Unix time in seconds (negative before 1970).
pub fn current_timestamp() -> (res: i64) {
    timestamp_from_clock(system_clock_secs())
}

/// Issues a session token at time `now` that expires a day later.
pub fn create_jwt_at(user_id: i64, role: i64, secret: &str, now: i64) -> (res: Result<
    String,
    JwtError,
>)
    ensures
        (now < -TOKEN_LIFETIME_SECS || now > i64::MAX - TOKEN_LIFETIME_SECS) ==> res
            == Err::<String, JwtError>(JwtError::ClockOutOfRange),
        -TOKEN_LIFETIME_SECS <= now <= i64::MAX - TOKEN_LIFETIME_SECS ==> (res matches Ok(t) && t@
            == hs256_token(user_id, role, (now + TOKEN_LIFETIME_SECS) as i64, secret@)),
{
    if now < -TOKEN_LIFETIME_SECS || now > i64::MAX - TOKEN_LIFETIME_SECS {
        return Err(JwtError::ClockOutOfRange);
    }
    let expiration = now + TOKEN_LIFETIME_SECS;
    match encode_hs256(user_id, role, expiration, secret) {
        Ok(t) => Ok(t),
        Err(_) => Err(JwtError::Encoding),
    }
}

/// Issues a session token for a user that expires a day from now. It fails only
/// when the clock reads a time whose expiry does not fit (see [`create_jwt_at`]).
pub fn create_jwt(user_id: i64, role: i64, secret: &str) -> (res: Result<String, JwtError>)
    ensures
        res matches Ok(t) ==> exists|exp: i64|
            #![trigger hs256_token(user_id, role, exp, secret@)]
            0 <= exp && t@ == hs256_token(user_id, role, exp, secret@),
        res matches Err(e) ==> e == JwtError::ClockOutOfRange,
{
    let now = current_timestamp();
    let res = create_jwt_at(user_id, role, secret, now);
    proof {
        if res is Ok {
            assert(hs256_token(user_id, role, (now + TOKEN_LIFETIME_SECS) as i64, secret@)
                == res->Ok_0@);
        }
    }
    res
}

/// What [`validate_jwt_at`] returns for a token at time `now`.
pub open spec fn validation_outcome(token: Seq<char>, secret: Seq<char>, now: u64) -> Result<
    (i64, i64, u64),
    JwtError,
> {
    match hs256_claims(token, secret) {
        Some(Some((sub, role, exp))) => if exp + EXPIRY_LEEWAY_SECS < now {
            Err(JwtError::ExpiredSignature)
        } else if exp > usize::MAX {
            Err(JwtError::InvalidToken)
        } else {
            Ok((sub, role, exp))
        },
        _ => Err(JwtError::InvalidToken),
    }
}

/// Validation over time: a token that is accepted at some time was accepted at
/// every earlier time, a token refused as expired stays refused at every later
/// time, an accepted token is at most a minute past its expiry, and whatever
/// the time, the claims read are those the token carries.
pub proof fn lemma_validation_over_time(token: Seq<char>, secret: Seq<char>, t1: u64, t2: u64)
    requires
        t1 <= t2,
    ensures
        validation_outcome(token, secret, t2) is Ok ==> validation_outcome(token, secret, t1)
            == validation_outcome(token, secret, t2),
        validation_outcome(token, secret, t1) == Err::<(i64, i64, u64), JwtError>(
            JwtError::ExpiredSignature,
        ) ==> validation_outcome(token, secret, t2) == Err::<(i64, i64, u64), JwtError>(
            JwtError::ExpiredSignature,
        ),
        validation_outcome(token, secret, t2) matches Ok(c) ==> t2 <= c.2 + EXPIRY_LEEWAY_SECS
            && hs256_claims(token, secret) == Some(Some(c)),
        validation_outcome(token, secret, t1) matches Err(e) ==> e != JwtError::ClockOutOfRange
            && e != JwtError::Encoding,
{
}

/// Whether `res` is the outcome `o` of a validation, the claims held in [`Claims`].
pub open spec fn matches_outcome(
    res: Result<Claims, JwtError>,
    o: Result<(i64, i64, u64), JwtError>,
) -> bool {
    match o {
        Ok((sub, role, exp)) => res matches Ok(c) && c.sub == sub && c.role == role && c.exp
            == exp,
        Err(e) => res == Err::<Claims, JwtError>(e),
    }
}

/// Checks a session token at time `now` (Unix seconds): its signature under
/// `secret`, its claims, and its expiry with a minute of leeway.
pub fn validate_jwt_at(token: &str, secret: &str, now: u64) -> (res: Result<Claims, JwtError>)
    ensures
        matches_outcome(res, validation_outcome(token@, secret@, now)),
        match validation_outcome(token@, secret@, now) {
            Ok((sub, role, exp)) => res.is_ok() && res.unwrap().sub == sub && res.unwrap().role
                == role && res.unwrap().exp == exp,
            Err(e) => res.is_err() && res.unwrap_err() == e,
        },
        forall|sub: i64, role: i64, exp: i64|
            #![trigger hs256_token(sub, role, exp, secret@)]
            0 <= exp && exp <= usize::MAX && now <= exp + EXPIRY_LEEWAY_SECS && token@
                == hs256_token(sub, role, exp, secret@) ==> res.is_ok() && res.unwrap().sub == sub
                && res.unwrap().role == role && res.unwrap().exp == exp,
        forall|sub: i64, role: i64, exp: i64|
            #![trigger hs256_token(sub, role, exp, secret@)]
            0 <= exp && exp + EXPIRY_LEEWAY_SECS < now && token@ == hs256_token(
                sub,
                role,
                exp,
                secret@,
            ) ==> res == Err::<Claims, JwtError>(JwtError::ExpiredSignature),
{
    match decode_hs256(token, secret) {
        Ok(Some((sub, role, exp))) => {
            if (exp as u128) + (EXPIRY_LEEWAY_SECS as u128) < (now as u128) {
                Err(JwtError::ExpiredSignature)
            } else if exp as u128 > usize::MAX as u128 {
                Err(JwtError::InvalidToken)
            } else {
                Ok(Claims { sub, role, exp: exp as usize })
            }
        },
        _ => Err(JwtError::InvalidToken),
    }
}

/// Checks a session token now: its signature under `secret`, its claims, and
/// its expiry with a minute of leeway. The result is what [`validate_jwt_at`]
/// gives at the time the clock reads, or `ClockOutOfRange` when the clock reads a
/// time before 1970.
pub fn validate_jwt(token: &str, secret: &str) -> (res: Result<Claims, JwtError>)
    ensures
        res == Err::<Claims, JwtError>(JwtError::ClockOutOfRange) || exists|now: u64|
            #![trigger validation_outcome(token@, secret@, now)]
            matches_outcome(res, validation_outcome(token@, secret@, now)),
        res matches Ok(c) ==> hs256_claims(token@, secret@) == Some(
            Some((c.sub, c.role, c.exp as u64)),
        ),
        !(hs256_claims(token@, secret@) matches Some(Some(_))) ==> res is Err,
{
    match system_clock_secs() {
        Ok(now) => {
            let res = validate_jwt_at(token, secret, now);
            assert(matches_outcome(res, validation_outcome(token@, secret@, now)));
            res
        },
        Err(_) => Err(JwtError::ClockOutOfRange),
    }
}

/// Characters of an API key: ASCII letters and digits.
pub open spec fn is_alphanumeric_ascii(c: char) -> bool {
    ('0' <= c && c <= '9') || ('a' <= c && c <= 'z') || ('A' <= c && c <= 'Z')
}

/// `rand::thread_rng().sample_iter(&Alphanumeric).take(len)` collected into a
/// string. The source shows each sample is one of the 62 ASCII letters and
/// digits; which ones come out is random.
#[verifier::external_body]
pub(crate) fn random_alphanumeric(len: usize) -> (res: String)
    ensures
        res@.len() == len,
        forall|i: int| 0 <= i < res@.len() ==> is_alphanumeric_ascii(#[trigger] res@[i]),
{
    rand::thread_rng().sample_iter(&rand::distributions::Alphanumeric).take(len).map(char::from)
        .collect()
}

/// A fresh random API key: 32 ASCII letters and digits.
pub fn generate_api_token() -> (res: String)
    ensures
        res@.len() == 32,
        forall|i: int| 0 <= i < res@.len() ==> is_alphanumeric_ascii(#[trigger] res@[i]),
{
    random_alphanumeric(32)
}

} // verus!
