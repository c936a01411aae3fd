use comet::auth::{
    any_user_exists, api_key_outcome, auth_step, auth_step_at, finish_signup, login, new_password_hash,
    prepare_account, require_admin, signup_role, AuthStep, InsertOutcome, UpdatePasswordRequest,
};
use comet::jwt::{create_jwt, create_jwt_at, current_timestamp, generate_api_token, timestamp_from_clock, validate_jwt, validate_jwt_at, JwtError};
use comet::models::{DbUser, HttpStatus};

#[test]
fn issued_token_validates_until_expiry() {
    let t = create_jwt_at(7, 2, "secret", 1_000_000).unwrap();
    let c = validate_jwt_at(&t, "secret", 1_000_000).unwrap();
    assert_eq!((c.sub, c.role, c.exp), (7, 2, 1_086_400));
    assert!(validate_jwt_at(&t, "secret", 1_086_460).is_ok());
    assert_eq!(validate_jwt_at(&t, "secret", 1_086_461).unwrap_err(), JwtError::ExpiredSignature);
}

#[test]
fn token_with_wrong_secret_or_garbage_is_invalid() {
    let t = create_jwt_at(7, 2, "secret", 1_000_000).unwrap();
    assert_eq!(validate_jwt_at(&t, "other", 1_000_000).unwrap_err(), JwtError::InvalidToken);
    assert_eq!(validate_jwt_at("not.a.token", "secret", 1_000_000).unwrap_err(), JwtError::InvalidToken);
}

#[test]
fn create_jwt_rejects_out_of_range_clock() {
    assert_eq!(create_jwt_at(1, 1, "s", i64::MAX).unwrap_err(), JwtError::ClockOutOfRange);
    assert_eq!(create_jwt_at(1, 1, "s", -86401).unwrap_err(), JwtError::ClockOutOfRange);
}

#[test]
fn token_issued_now_validates_now() {
    assert!(current_timestamp() > 1_600_000_000);
    let t = create_jwt(3, 1, "k").unwrap();
    assert_eq!(validate_jwt(&t, "k").unwrap().sub, 3);
}

#[test]
fn api_token_is_32_alphanumerics() {
    let a = generate_api_token();
    assert_eq!(a.len(), 32);
    assert!(a.chars().all(|c| c.is_ascii_alphanumeric()));
    assert_ne!(a, generate_api_token());
}

#[test]
fn auth_step_cases() {
    assert!(matches!(auth_step(None, "s"), AuthStep::Reject(HttpStatus::Unauthorized)));
    match auth_step(Some("abc123"), "s") {
        AuthStep::LookUpApiKey(k) => assert_eq!(k, "abc123"),
        _ => panic!("expected an API key lookup"),
    }
    let t = create_jwt(9, 2, "s").unwrap();
    let h = format!("Bearer {}", t);
    assert!(matches!(auth_step(Some(&h), "s"), AuthStep::Authenticated(9)));
    assert!(matches!(auth_step(Some(&h), "x"), AuthStep::Reject(HttpStatus::Unauthorized)));
    assert!(matches!(auth_step(Some("Bearer "), "s"), AuthStep::Reject(HttpStatus::Unauthorized)));
}

#[test]
fn api_key_outcomes() {
    assert_eq!(api_key_outcome(Err(())), Err(HttpStatus::InternalServerError));
    assert_eq!(api_key_outcome(Ok(None)), Err(HttpStatus::Unauthorized));
    assert_eq!(api_key_outcome(Ok(Some(4))), Ok(4));
}

#[test]
fn signup_roles() {
    let e = signup_role(true, true, Ok(0)).unwrap_err();
    assert_eq!(e.status, HttpStatus::ServiceUnavailable);
    assert_eq!(e.body.error, "This app is in maintenance mode.");
    assert_eq!(signup_role(false, false, Ok(0)).unwrap(), 1);
    assert_eq!(signup_role(false, false, Err(())).unwrap(), 1);
    let e = signup_role(false, false, Ok(3)).unwrap_err();
    assert_eq!(e.status, HttpStatus::Forbidden);
    assert_eq!(e.body.error, "Public signups are disabled");
    assert_eq!(signup_role(false, true, Ok(3)).unwrap(), 2);
}

#[test]
fn any_user_exists_counts() {
    assert!(!any_user_exists(Ok(0)));
    assert!(any_user_exists(Ok(2)));
    assert!(!any_user_exists(Err(())));
}

#[test]
fn signup_then_login() {
    let acct = prepare_account("hunter2").unwrap();
    assert_eq!(acct.api_key.len(), 32);
    let user = DbUser { id: 5, password: acct.password_hash.clone(), role: 2 };
    let r = login(Ok(Some(user)), "hunter2", "s").unwrap();
    assert_eq!(validate_jwt(&r.token, "s").unwrap().sub, 5);
    let user = DbUser { id: 5, password: acct.password_hash, role: 2 };
    let e = login(Ok(Some(user)), "wrong", "s").err().unwrap();
    assert_eq!(e.status, HttpStatus::Unauthorized);
    assert_eq!(e.body.error, "Invalid credentials");
}

#[test]
fn login_errors() {
    let e = login(Err(()), "p", "s").err().unwrap();
    assert_eq!((e.status, e.body.error.as_str()), (HttpStatus::InternalServerError, "Database error"));
    let e = login(Ok(None), "p", "s").err().unwrap();
    assert_eq!((e.status, e.body.error.as_str()), (HttpStatus::Unauthorized, "Invalid credentials"));
    let user = DbUser { id: 1, password: "not a hash".to_string(), role: 1 };
    let e = login(Ok(Some(user)), "p", "s").err().unwrap();
    assert_eq!((e.status, e.body.error.as_str()), (HttpStatus::InternalServerError, "Invalid hash"));
}

#[test]
fn finish_signup_outcomes() {
    let r = finish_signup(InsertOutcome::Inserted(11), 1, "s").unwrap();
    let c = validate_jwt(&r.token, "s").unwrap();
    assert_eq!((c.sub, c.role), (11, 1));
    let e = finish_signup(InsertOutcome::UniqueViolation, 1, "s").err().unwrap();
    assert_eq!((e.status, e.body.error.as_str()), (HttpStatus::Conflict, "Email already exists"));
    let e = finish_signup(InsertOutcome::Failed, 1, "s").err().unwrap();
    assert_eq!((e.status, e.body.error.as_str()), (HttpStatus::InternalServerError, "Database error"));
}

#[test]
fn password_change() {
    let acct = prepare_account("old").unwrap();
    let req = UpdatePasswordRequest { current_password: "old".into(), new_password: "new".into() };
    let h = new_password_hash(Some(acct.password_hash.clone()), &req).unwrap();
    let r = login(Ok(Some(DbUser { id: 1, password: h, role: 1 })), "new", "s");
    assert!(r.is_ok());
    let bad = UpdatePasswordRequest { current_password: "nope".into(), new_password: "new".into() };
    let e = new_password_hash(Some(acct.password_hash), &bad).unwrap_err();
    assert_eq!((e.status, e.body.error.as_str()), (HttpStatus::Unauthorized, "Incorrect current password"));
    let e = new_password_hash(None, &req).unwrap_err();
    assert_eq!((e.status, e.body.error.as_str()), (HttpStatus::Unauthorized, "User not found"));
    let e = new_password_hash(Some("garbage".into()), &req).unwrap_err();
    assert_eq!((e.status, e.body.error.as_str()), (HttpStatus::InternalServerError, "Invalid hash format in database"));
}

#[test]
fn admin_only() {
    assert!(require_admin(1).is_ok());
    let e = require_admin(2).unwrap_err();
    assert_eq!((e.status, e.body.error.as_str()), (HttpStatus::Unauthorized, "You cannot access this route."));
}

#[test]
fn generated_api_key_is_looked_up_as_key() {
    let key = generate_api_token();
    match auth_step(Some(&key), "s") {
        AuthStep::LookUpApiKey(k) => assert_eq!(k, key),
        _ => panic!("an API key must be looked up"),
    }
}

#[test]
fn timestamp_from_clock_readings() {
    assert_eq!(timestamp_from_clock(Ok(1_700_000_000)), 1_700_000_000);
    assert_eq!(timestamp_from_clock(Ok(0)), 0);
    assert_eq!(timestamp_from_clock(Ok(u64::MAX)), -1);
    assert_eq!(timestamp_from_clock(Ok(1u64 << 63)), i64::MIN);
    assert_eq!(timestamp_from_clock(Err(5)), -5);
    assert_eq!(timestamp_from_clock(Err(u64::MAX)), i64::MIN);
}

#[test]
fn create_jwt_succeeds_with_a_sane_clock() {
    let t = create_jwt(3, 1, "k").unwrap();
    let c = validate_jwt(&t, "k").unwrap();
    assert_eq!((c.sub, c.role), (3, 1));
    assert!(create_jwt_at(3, 1, "", -86400).is_ok());
}

#[test]
fn token_claims_in_declared_order() {
    let t = create_jwt_at(7, 2, "secret", 1_000_000).unwrap();
    let payload = t.split('.').nth(1).unwrap();
    assert_eq!(payload, "eyJzdWIiOjcsInJvbGUiOjIsImV4cCI6MTA4NjQwMH0");
}

#[test]
fn bearer_header_at_a_given_time() {
    let t = create_jwt_at(9, 1, "k", 1_000_000).unwrap();
    let h = format!("Bearer {t}");
    assert!(matches!(auth_step_at(Some(&h), "k", 1_000_000), AuthStep::Authenticated(9)));
    assert!(matches!(auth_step_at(Some(&h), "k", 1_086_461), AuthStep::Reject(HttpStatus::Unauthorized)));
    assert!(matches!(auth_step_at(Some(&h), "other", 1_000_000), AuthStep::Reject(HttpStatus::Unauthorized)));
    assert!(matches!(auth_step_at(None, "k", 0), AuthStep::Reject(HttpStatus::Unauthorized)));
    assert!(matches!(auth_step_at(Some("abc"), "k", 0), AuthStep::LookUpApiKey(ref k) if k == "abc"));
}

#[test]
fn hashing_a_password_succeeds_and_verifies() {
    let a = prepare_account("hunter2").unwrap();
    assert_eq!(a.api_key.len(), 32);
    let r = UpdatePasswordRequest { current_password: "hunter2".into(), new_password: "n3w".into() };
    let n = new_password_hash(Some(a.password_hash), &r).unwrap();
    let r2 = UpdatePasswordRequest { current_password: "n3w".into(), new_password: "x".into() };
    assert!(new_password_hash(Some(n), &r2).is_ok());
}
