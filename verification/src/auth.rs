use argon2::{PasswordHasher, PasswordVerifier};
use vstd::prelude::*;
use vstd::string::StringExecFns;

use crate::jwt::{
    create_jwt, generate_api_token, hs256_claims, hs256_token, is_alphanumeric_ascii,
    validate_jwt, validate_jwt_at, validation_outcome,
};
use crate::models::{
    api_error, internal_error, is_error, maintenance_error, ApiError, AuthResponse, DbUser,
    HttpStatus, Role,
};
use crate::text::{chars_of, starts_with, string_from_chars};

verus! {

/// The stored password hash is a well-formed PHC string (`PasswordHash::new`
/// accepts it).
pub uninterp spec fn phc_hash_parses(hash: Seq<char>) -> bool;

/// `Argon2::default().verify_password` accepts `password` against the stored hash.
pub uninterp spec fn argon2_accepts(hash: Seq<char>, password: Seq<char>) -> bool;

/// `argon2::PasswordHash::new` on the stored hash, then
/// `Argon2::default().verify_password`. Claimed: `None` exactly when the stored
/// hash does not parse, else whether the password verifies; both are functions
/// of the two strings.
#[verifier::external_body]
fn check_password(stored: &str, password: &str) -> (res: Option<bool>)
    ensures
        res is None <==> !phc_hash_parses(stored@),
        res matches Some(b) ==> b == argon2_accepts(stored@, password@),
{
    match argon2::PasswordHash::new(stored) {
        Ok(h) => Some(argon2::Argon2::default().verify_password(password.as_bytes(), &h).is_ok()),
        Err(_) => None,
    }
}

/// Longest password, in characters, that Argon2 is sure to hash: at four UTF-8
/// bytes a character it stays within `argon2::MAX_PWD_LEN` (`0xFFFF_FFFF` bytes).
pub const MAX_HASHABLE_PASSWORD_CHARS: usize = 0x3FFF_FFFF;

/// `Argon2::default().hash_password` with a salt from
/// `SaltString::generate(&mut OsRng)`, as a PHC string. The salt is random, so
/// the hash is not a function of the password; the source shows that the string
/// parses again and that verifying the same password against it succeeds
/// (verification recomputes the hash with the recorded algorithm, version,
/// parameters and salt). It also shows that hashing fails only for a password
/// over `MAX_PWD_LEN` bytes or a salt outside 8 to `0xFFFF_FFFF` bytes, and the
/// generated salt has 16 bytes, so a password within
/// [`MAX_HASHABLE_PASSWORD_CHARS`] characters always gets a hash.
#[verifier::external_body]
fn hash_new_password(password: &str) -> (res: Option<String>)
    ensures
        password@.len() <= MAX_HASHABLE_PASSWORD_CHARS ==> res is Some,
        res matches Some(h) ==> phc_hash_parses(h@) && argon2_accepts(h@, password@),
{
    let salt = argon2::password_hash::SaltString::generate(&mut rand::rngs::OsRng);
    match argon2::Argon2::default().hash_password(password.as_bytes(), &salt) {
        Ok(h) => Some(h.to_string()),
        Err(_) => None,
    }
}

/// What an `Authorization` header asks for.
#[derive(Debug)]
pub enum AuthStep {
    /// The request is refused with this status.
    Reject(HttpStatus),
    /// A session token named this user.
    Authenticated(i64),
    /// The header is an API key, to be looked up.
    LookUpApiKey(String),
}

/// The header holds a bearer token: it starts with `Bearer `.
pub open spec fn is_bearer(h: Seq<char>) -> bool {
    h.len() >= 7 && h.take(7) == "Bearer "@
}

/// Reads an `Authorization` header: no header is refused; `Bearer <token>`
/// authenticates the user the token names, when it is valid now; anything else
/// is an API key to look up.
pub fn auth_step(header: Option<&str>, jwt_secret: &str) -> (res: AuthStep)
    ensures
        match header {
            None => res == AuthStep::Reject(HttpStatus::Unauthorized),
            Some(h) => if !is_bearer(h@) {
                res matches AuthStep::LookUpApiKey(k) && k@ == h@
            } else {
                &&& match res {
                    AuthStep::Authenticated(id) => (hs256_claims(h@.skip(7), jwt_secret@) matches Some(
                        Some(c),
                    ) && c.0 == id),
                    AuthStep::Reject(s) => s == HttpStatus::Unauthorized,
                    AuthStep::LookUpApiKey(_) => false,
                }
                &&& !(hs256_claims(h@.skip(7), jwt_secret@) matches Some(Some(_))) ==> res
                    == AuthStep::Reject(HttpStatus::Unauthorized)
                &&& res matches AuthStep::Authenticated(id) ==> exists|now: u64|
                    #![trigger validation_outcome(h@.skip(7), jwt_secret@, now)]
                    (validation_outcome(h@.skip(7), jwt_secret@, now) matches Ok(c) && c.0 == id)
            },
        },
{
    let h = match header {
        None => return AuthStep::Reject(HttpStatus::Unauthorized),
        Some(h) => h,
    };
    proof {
        reveal_strlit("Bearer ");
    }
    if !starts_with(h, "Bearer ") {
        return AuthStep::LookUpApiKey(String::from_str(h));
    }
    let v = chars_of(h);
    let token = string_from_chars(&v, 7, v.len());
    assert(token@ =~= h@.skip(7));
    match validate_jwt(token.as_str(), jwt_secret) {
        Ok(claims) => {
            assert(hs256_claims(h@.skip(7), jwt_secret@) == Some(
                Some((claims.sub, claims.role, claims.exp as u64)),
            ));
            AuthStep::Authenticated(claims.sub)
        },
        Err(_) => AuthStep::Reject(HttpStatus::Unauthorized),
    }
}

/// Reads an `Authorization` header at time `now` (Unix seconds): no header is
/// refused; `Bearer <token>` authenticates the user the token names when it
/// validates at `now` and is refused otherwise; anything else is an API key to
/// look up.
pub fn auth_step_at(header: Option<&str>, jwt_secret: &str, now: u64) -> (res: AuthStep)
    ensures
        match header {
            None => res == AuthStep::Reject(HttpStatus::Unauthorized),
            Some(h) => if !is_bearer(h@) {
                res matches AuthStep::LookUpApiKey(k) && k@ == h@
            } else {
                match validation_outcome(h@.skip(7), jwt_secret@, now) {
                    Ok(c) => res == AuthStep::Authenticated(c.0),
                    Err(_) => res == AuthStep::Reject(HttpStatus::Unauthorized),
                }
            },
        },
{
    let h = match header {
        None => return AuthStep::Reject(HttpStatus::Unauthorized),
        Some(h) => h,
    };
    proof {
        reveal_strlit("Bearer ");
    }
    if !starts_with(h, "Bearer ") {
        return AuthStep::LookUpApiKey(String::from_str(h));
    }
    let v = chars_of(h);
    let token = string_from_chars(&v, 7, v.len());
    assert(token@ =~= h@.skip(7));
    match validate_jwt_at(token.as_str(), jwt_secret, now) {
        Ok(claims) => AuthStep::Authenticated(claims.sub),
        Err(_) => AuthStep::Reject(HttpStatus::Unauthorized),
    }
}

/// An API key the server hands out is never read as a bearer token: the
/// `Authorization` header that carries it is always looked up as a key.
pub proof fn lemma_api_key_is_not_bearer(key: Seq<char>)
    requires
        key.len() == 32,
        forall|i: int| 0 <= i < key.len() ==> is_alphanumeric_ascii(#[trigger] key[i]),
    ensures
        !is_bearer(key),
{
    reveal_strlit("Bearer ");
    assert(is_alphanumeric_ascii(key[6]));
    if is_bearer(key) {
        assert(key.take(7)[6] == "Bearer "@[6]);
    }
}

/// The outcome of looking an API key up: a database failure is a 500, an
/// unknown key a 401, a known key authenticates its user.
pub fn api_key_outcome(lookup: Result<Option<i64>, ()>) -> (res: Result<i64, HttpStatus>)
    ensures
        lookup is Err ==> res == Err::<i64, HttpStatus>(HttpStatus::InternalServerError),
        lookup == Ok::<Option<i64>, ()>(None) ==> res == Err::<i64, HttpStatus>(
            HttpStatus::Unauthorized,
        ),
        lookup matches Ok(Some(id)) ==> res == Ok::<i64, HttpStatus>(id),
{
    match lookup {
        Err(_) => Err(HttpStatus::InternalServerError),
        Ok(None) => Err(HttpStatus::Unauthorized),
        Ok(Some(id)) => Ok(id),
    }
}

/// A login request.
#[derive(Debug)]
pub struct LoginRequest {
    pub email: String,
    pub password: String,
}

/// A sign-up request.
#[derive(Debug)]
pub struct SignupRequest {
    pub name: String,
    pub email: String,
    pub password: String,
}

/// A password change request.
#[derive(Debug)]
pub struct UpdatePasswordRequest {
    pub current_password: String,
    pub new_password: String,
}

/// Reply to an API key reset.
#[derive(Debug)]
pub struct ApiKeyResponse {
    pub api_key: String,
}

/// Answers a login once the user row was looked up by e-mail: a database
/// failure, an unknown e-mail, an unreadable stored hash, a wrong password and a
/// failed token each have their reply; otherwise a fresh session token for the
/// user and their role.
pub fn login(user: Result<Option<DbUser>, ()>, password: &str, jwt_secret: &str) -> (res: Result<
    AuthResponse,
    ApiError,
>)
    ensures
        user is Err ==> (res matches Err(e) && is_error(
            e,
            HttpStatus::InternalServerError,
            "Database error"@,
        )),
        user matches Ok(None) ==> (res matches Err(e) && is_error(
            e,
            HttpStatus::Unauthorized,
            "Invalid credentials"@,
        )),
        user matches Ok(Some(u)) ==> {
            &&& !phc_hash_parses(u.password@) ==> (res matches Err(e) && is_error(
                e,
                HttpStatus::InternalServerError,
                "Invalid hash"@,
            ))
            &&& phc_hash_parses(u.password@) && !argon2_accepts(u.password@, password@) ==> (
            res matches Err(e) && is_error(e, HttpStatus::Unauthorized, "Invalid credentials"@))
            &&& phc_hash_parses(u.password@) && argon2_accepts(u.password@, password@) ==> match res {
                Ok(r) => exists|exp: i64|
                    #![trigger hs256_token(u.id, u.role, exp, jwt_secret@)]
                    0 <= exp && r.token@ == hs256_token(u.id, u.role, exp, jwt_secret@),
                Err(e) => is_error(e, HttpStatus::InternalServerError, "Token creation failed"@),
            }
        },
{
    let u = match user {
        Err(_) => return Err(api_error(HttpStatus::InternalServerError, "Database error")),
        Ok(None) => return Err(api_error(HttpStatus::Unauthorized, "Invalid credentials")),
        Ok(Some(u)) => u,
    };
    match check_password(u.password.as_str(), password) {
        None => Err(api_error(HttpStatus::InternalServerError, "Invalid hash")),
        Some(false) => Err(api_error(HttpStatus::Unauthorized, "Invalid credentials")),
        Some(true) => match create_jwt(u.id, u.role, jwt_secret) {
            Ok(token) => Ok(AuthResponse { token }),
            Err(_) => Err(api_error(HttpStatus::InternalServerError, "Token creation failed")),
        },
    }
}

/// The role a new account gets, or why sign-up is refused: nothing is accepted
/// in maintenance mode; the first account is an admin; later accounts are users
/// and need public sign-ups to be allowed. A failed count of the accounts counts
/// as none.
pub fn signup_role(maintenance_mode: bool, allow_public_signups: bool, user_count: Result<i64, ()>) -> (res:
    Result<i64, ApiError>)
    ensures
        maintenance_mode ==> (res matches Err(e) && is_error(
            e,
            HttpStatus::ServiceUnavailable,
            "This app is in maintenance mode."@,
        )),
        !maintenance_mode && count_or_zero(user_count) == 0 ==> (res matches Ok(r) && r
            == Role::Admin.weight_spec()),
        !maintenance_mode && count_or_zero(user_count) != 0 && !allow_public_signups ==> (
        res matches Err(e) && is_error(e, HttpStatus::Forbidden, "Public signups are disabled"@)),
        !maintenance_mode && count_or_zero(user_count) != 0 && allow_public_signups ==> (
        res matches Ok(r) && r == Role::User.weight_spec()),
{
    if maintenance_mode {
        return Err(maintenance_error());
    }
    let user_count = match user_count {
        Ok(n) => n,
        Err(_) => 0,
    };
    if user_count == 0 {
        Ok(Role::Admin.weight())
    } else {
        if !allow_public_signups {
            return Err(api_error(HttpStatus::Forbidden, "Public signups are disabled"));
        }
        Ok(Role::User.weight())
    }
}

/// A user count, or zero when counting failed.
pub open spec fn count_or_zero(count: Result<i64, ()>) -> i64 {
    match count {
        Ok(n) => n,
        Err(_) => 0,
    }
}

/// Whether any account exists yet (a failed count counts as none).
pub fn any_user_exists(user_count: Result<i64, ()>) -> (res: bool)
    ensures
        res == (count_or_zero(user_count) > 0),
{
    match user_count {
        Ok(n) => n > 0,
        Err(_) => false,
    }
}

/// The credentials stored for a new account.
#[derive(Debug)]
pub struct NewAccount {
    pub password_hash: String,
    pub api_key: String,
}

/// Hashes the new account's password and draws its API key (32 ASCII letters
/// and digits); a failed hash, which only a password too long to hash can give,
/// is a 500.
pub fn prepare_account(password: &str) -> (res: Result<NewAccount, ApiError>)
    ensures
        password@.len() <= MAX_HASHABLE_PASSWORD_CHARS ==> res is Ok,
        match res {
            Ok(a) => phc_hash_parses(a.password_hash@) && argon2_accepts(
                a.password_hash@,
                password@,
            ) && a.api_key@.len() == 32 && forall|i: int|
                0 <= i < a.api_key@.len() ==> is_alphanumeric_ascii(#[trigger] a.api_key@[i]),
            Err(e) => is_error(e, HttpStatus::InternalServerError, "Hashing failed"@),
        },
{
    let password_hash = match hash_new_password(password) {
        Some(h) => h,
        None => return Err(api_error(HttpStatus::InternalServerError, "Hashing failed")),
    };
    let api_key = generate_api_token();
    Ok(NewAccount { password_hash, api_key })
}

/// How inserting a new account went.
#[derive(Debug)]
pub enum InsertOutcome {
    /// The row was inserted with this id.
    Inserted(i64),
    /// The e-mail is taken.
    UniqueViolation,
    /// Any other database failure.
    Failed,
}

/// Answers a sign-up once the account row was inserted (or not).
pub fn finish_signup(insert: InsertOutcome, role: i64, jwt_secret: &str) -> (res: Result<
    AuthResponse,
    ApiError,
>)
    ensures
        insert matches InsertOutcome::UniqueViolation ==> (res matches Err(e) && is_error(
            e,
            HttpStatus::Conflict,
            "Email already exists"@,
        )),
        insert matches InsertOutcome::Failed ==> (res matches Err(e) && is_error(
            e,
            HttpStatus::InternalServerError,
            "Database error"@,
        )),
        insert matches InsertOutcome::Inserted(id) ==> match res {
            Ok(r) => exists|exp: i64|
                #![trigger hs256_token(id, role, exp, jwt_secret@)]
                0 <= exp && r.token@ == hs256_token(id, role, exp, jwt_secret@),
            Err(e) => is_error(e, HttpStatus::InternalServerError, "Token creation failed"@),
        },
{
    match insert {
        InsertOutcome::Inserted(user_id) => match create_jwt(user_id, role, jwt_secret) {
            Ok(token) => Ok(AuthResponse { token }),
            Err(_) => Err(api_error(HttpStatus::InternalServerError, "Token creation failed")),
        },
        InsertOutcome::UniqueViolation => Err(api_error(HttpStatus::Conflict, "Email already exists")),
        InsertOutcome::Failed => Err(api_error(HttpStatus::InternalServerError, "Database error")),
    }
}

/// The new password hash to store for a password change, or why the change is
/// refused: the user must exist, their stored hash must be readable and the
/// current password must match it.
pub fn new_password_hash(stored: Option<String>, request: &UpdatePasswordRequest) -> (res: Result<
    String,
    ApiError,
>)
    ensures
        stored is None ==> (res matches Err(e) && is_error(
            e,
            HttpStatus::Unauthorized,
            "User not found"@,
        )),
        stored matches Some(h) ==> {
            &&& !phc_hash_parses(h@) ==> (res matches Err(e) && is_error(
                e,
                HttpStatus::InternalServerError,
                "Invalid hash format in database"@,
            ))
            &&& phc_hash_parses(h@) && !argon2_accepts(h@, request.current_password@) ==> (
            res matches Err(e) && is_error(e, HttpStatus::Unauthorized, "Incorrect current password"@))
            &&& phc_hash_parses(h@) && argon2_accepts(h@, request.current_password@)
                && request.new_password@.len() <= MAX_HASHABLE_PASSWORD_CHARS ==> res is Ok
            &&& phc_hash_parses(h@) && argon2_accepts(h@, request.current_password@) ==> match res {
                Ok(n) => phc_hash_parses(n@) && argon2_accepts(n@, request.new_password@),
                Err(e) => is_error(e, HttpStatus::InternalServerError, "Failed to hash new password"@),
            }
        },
{
    let h = match stored {
        None => return Err(api_error(HttpStatus::Unauthorized, "User not found")),
        Some(h) => h,
    };
    match check_password(h.as_str(), request.current_password.as_str()) {
        None => Err(api_error(HttpStatus::InternalServerError, "Invalid hash format in database")),
        Some(false) => Err(api_error(HttpStatus::Unauthorized, "Incorrect current password")),
        Some(true) => match hash_new_password(request.new_password.as_str()) {
            Some(n) => Ok(n),
            None => Err(api_error(HttpStatus::InternalServerError, "Failed to hash new password")),
        },
    }
}

/// Settings routes are for admins only.
pub fn require_admin(role: i64) -> (res: Result<(), ApiError>)
    ensures
        role == Role::Admin.weight_spec() <==> res is Ok,
        res matches Err(e) ==> is_error(e, HttpStatus::Unauthorized, "You cannot access this route."@),
{
    if role != Role::Admin.weight() {
        return Err(api_error(HttpStatus::Unauthorized, "You cannot access this route."));
    }
    Ok(())
}

} // verus!
