//! Sessions and accounts: credential priority, strict against permissive
//! resolution, and the sign-up, login and logout flows.

use forum_core::auth::Auth;
use forum_core::db::table::User;
use forum_core::error::{ClientError, Error};
use forum_core::flow::{
    check_password, hash_password, login_lookup, login_session, logout, normalize_email,
    sign_up_precheck, sign_up_session, validate_password,
};
use forum_core::session::{
    authenticate_permissive, begin_authenticate, extract_credential, finish_authenticate,
    Credential,
};

fn auth() -> Auth {
    Auth::new(b"a-test-secret-of-reasonable-size".to_vec())
}

const NOW: i64 = 1_700_000_000;

#[test]
fn extract_prefers_cookie() {
    let c = extract_credential(Some("ck".to_string()), Some("br".to_string()));
    assert!(matches!(c, Credential::Cookie(t) if t == "ck"));
}

#[test]
fn extract_falls_back_to_bearer() {
    let c = extract_credential(None, Some("br".to_string()));
    assert!(matches!(c, Credential::Bearer(t) if t == "br"));
}

#[test]
fn extract_absent_when_neither() {
    let c = extract_credential(None, None);
    assert!(matches!(c, Credential::Absent));
}

#[test]
fn strict_absent_is_unauthorized() {
    let a = auth();
    let r = begin_authenticate(&a, &Credential::Absent, NOW);
    assert!(matches!(r, Err(Error::Client(ClientError::Unauthorized))));
}

#[test]
fn permissive_failure_is_anonymous() {
    let u = authenticate_permissive(Err(Error::Client(ClientError::Unauthorized)));
    assert_eq!(u.id(), "0");
    let u = authenticate_permissive(Err(Error::JsonWebToken));
    assert_eq!(u.id(), "0");
}

#[test]
fn permissive_success_is_passthrough() {
    let u = authenticate_permissive(Ok(User::new("u77".to_string(), "hash".to_string())));
    assert_eq!(u.id(), "u77");
}

#[test]
fn strict_flow_with_valid_cookie_token() {
    let a = auth();
    let token = a.generate_jwt_at("u42", NOW);
    let cred = extract_credential(Some(token), None);
    let claims = begin_authenticate(&a, &cred, NOW).unwrap();
    assert_eq!(claims.sub(), "u42");
    let user = finish_authenticate(Some(User::new("u42".to_string(), "h".to_string()))).unwrap();
    assert_eq!(user.id(), "u42");
}

#[test]
fn strict_flow_with_bearer_token() {
    let a = auth();
    let token = a.generate_jwt_at("u43", NOW);
    let cred = extract_credential(None, Some(token));
    let claims = begin_authenticate(&a, &cred, NOW).unwrap();
    assert_eq!(claims.sub(), "u43");
}

#[test]
fn deleted_user_is_unauthorized() {
    let r = finish_authenticate(None);
    assert!(matches!(r, Err(Error::Client(ClientError::Unauthorized))));
}

#[test]
fn sign_up_succeeds_and_returns_token() {
    let a = auth();
    let email = "a@b.com";
    let password = "longenough1";
    assert!(validate_password(password));
    assert!(sign_up_precheck(None).is_ok());
    let hash = hash_password(password).unwrap();
    let created = User::new("newuser".to_string(), hash);
    let token = sign_up_session(&a, Some(created), NOW).unwrap();
    let claims = a.validate_jwt_at(token.as_str(), NOW).unwrap();
    assert_eq!(claims.sub(), "newuser");
    assert_eq!(normalize_email(email), "a@b.com");
}

#[test]
fn sign_up_taken_email_refused() {
    let existing = User::new("u1".to_string(), "h".to_string());
    let r = sign_up_precheck(Some(existing));
    assert!(matches!(r, Err(Error::Client(ClientError::EmailTaken))));
}

#[test]
fn sign_up_without_created_record_is_internal() {
    let a = auth();
    let r = sign_up_session(&a, None, NOW);
    assert!(matches!(r, Err(Error::RecordNotCreated(t)) if t == "user"));
}

#[test]
fn password_length_rule() {
    assert!(!validate_password(""));
    assert!(!validate_password("seven77"));
    assert!(validate_password("eight888"));
    assert!(validate_password("longenough1"));
}

#[test]
fn login_unknown_email() {
    let r = login_lookup(None);
    assert!(matches!(r, Err(Error::Client(ClientError::EmailNotFound))));
}

#[test]
fn login_wrong_password_no_token() {
    let hash = hash_password("longenough1").unwrap();
    let user = User::new("u1".to_string(), hash);
    let r = check_password(&user, "wrongpassword1");
    assert!(matches!(r, Err(Error::Client(ClientError::InvalidPassword))));
}

#[test]
fn login_unreadable_hash_is_internal() {
    let user = User::new("u1".to_string(), "not-a-bcrypt-hash".to_string());
    let r = check_password(&user, "whatever1");
    assert!(matches!(r, Err(Error::Bcrypt)));
}

#[test]
fn login_remember_me_sets_persistent_cookie() {
    let a = auth();
    let hash = hash_password("longenough1").unwrap();
    let user = User::new("u1".to_string(), hash);
    assert!(check_password(&user, "longenough1").is_ok());
    let out = login_session(&a, &user, true, NOW);
    let cookie = out.set_cookie.expect("remember_me must set a cookie");
    assert!(cookie.starts_with("connect.sid="));
    assert!(cookie.contains("Max-Age=2592000"));
    assert!(cookie.contains(out.token.as_str()));
}

#[test]
fn login_without_remember_me_sets_no_cookie() {
    let a = auth();
    let hash = hash_password("longenough1").unwrap();
    let user = User::new("u1".to_string(), hash);
    let out = login_session(&a, &user, false, NOW);
    assert!(out.set_cookie.is_none());
    assert!(a.validate_jwt_at(out.token.as_str(), NOW).is_ok());
}

#[test]
fn normalize_email_lowercases() {
    assert_eq!(normalize_email("A@B.com"), "a@b.com");
    assert_eq!(normalize_email("MiXeD@Example.ORG"), "mixed@example.org");
}

#[test]
fn logout_without_cookie() {
    let (msg, cookie) = logout(None);
    assert_eq!(msg, "User already logged out");
    assert!(cookie.is_none());
}

#[test]
fn logout_clears_cookie() {
    let (msg, cookie) = logout(Some("tok".to_string()));
    assert_eq!(msg, "User logged out successfully");
    assert_eq!(cookie.unwrap(), "connect.sid=tok; Max-Age=0");
}

#[test]
fn anonymous_default_identity() {
    let u = User::default();
    assert_eq!(u.id(), "0");
    assert_eq!(u.password(), "");
}

#[test]
fn client_error_codes_and_statuses() {
    assert_eq!(ClientError::Unauthorized.code(), "UNAUTHORIZED");
    assert_eq!(ClientError::Unauthorized.status_code(), 401);
    assert_eq!(ClientError::EmailTaken.code(), "EMAIL_TAKEN");
    assert_eq!(ClientError::EmailTaken.status_code(), 409);
    assert_eq!(ClientError::EmailNotFound.code(), "EMAIL_NOT_FOUND");
    assert_eq!(ClientError::EmailNotFound.status_code(), 404);
    assert_eq!(ClientError::InvalidPassword.code(), "INVALID_PASSWORD");
    assert_eq!(ClientError::InvalidPassword.status_code(), 400);
    assert_eq!(ClientError::TopicNotFound.code(), "TOPIC_NOT_FOUND");
    assert_eq!(ClientError::ReplyNotFound.code(), "REPLY_NOT_FOUND");
    assert_eq!(ClientError::BadRequest("x".to_string()).code(), "BAD_REQUEST");
    assert_eq!(ClientError::BadRequest("x".to_string()).status_code(), 400);
}

#[test]
fn internal_errors_stay_opaque() {
    assert_eq!(Error::Bcrypt.message(), "Internal Server Error");
    assert_eq!(Error::Bcrypt.status_code(), 500);
    assert_eq!(Error::JsonWebToken.message(), "Internal Server Error");
    assert_eq!(Error::MissingEnv("X".to_string()).status_code(), 500);
    assert_eq!(
        Error::Client(ClientError::Unauthorized).message(),
        "UNAUTHORIZED"
    );
    assert_eq!(Error::Client(ClientError::Unauthorized).status_code(), 401);
}

#[test]
fn auth_check_reports_outcome() {
    assert!(forum_core::session::auth_check(Ok(User::new("u1".to_string(), "h".to_string()))));
    assert!(!forum_core::session::auth_check(Err(Error::Client(ClientError::Unauthorized))));
    assert!(!forum_core::session::auth_check(Err(Error::JsonWebToken)));
}
