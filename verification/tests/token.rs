//! Tokens: round trip, expiry, tamper rejection, and the session cookies.

use forum_core::auth::{Auth, TOKEN_LIFETIME_SECS};
use forum_core::error::{ClientError, Error};

fn auth() -> Auth {
    Auth::new(b"a-test-secret-of-reasonable-size".to_vec())
}

const NOW: i64 = 1_700_000_000;

#[test]
fn round_trip_subject() {
    let a = auth();
    let token = a.generate_jwt_at("user123", NOW);
    let claims = a.validate_jwt_at(token.as_str(), NOW).unwrap();
    assert_eq!(claims.sub(), "user123");
    assert_eq!(claims.exp(), NOW + TOKEN_LIFETIME_SECS);
}

#[test]
fn round_trip_real_time() {
    let a = auth();
    let token = a.generate_jwt("someone");
    let claims = a.validate_jwt(token.as_str()).unwrap();
    assert_eq!(claims.sub(), "someone");
}

#[test]
fn expired_token_unauthorized() {
    let a = auth();
    let token = a.generate_jwt_at("user123", NOW);
    // One second past the expiry: a deliberate denial, not an internal fault.
    let r = a.validate_jwt_at(token.as_str(), NOW + TOKEN_LIFETIME_SECS + 1);
    assert!(matches!(r, Err(Error::Client(ClientError::Unauthorized))));
    // At the expiry instant itself the token still verifies.
    assert!(a.validate_jwt_at(token.as_str(), NOW + TOKEN_LIFETIME_SECS).is_ok());
}

#[test]
fn tampered_signature_rejected() {
    let a = auth();
    let token = a.generate_jwt_at("user123", NOW);
    let sig_start = token.rfind('.').unwrap() + 1;
    assert!(sig_start < token.len());
    for i in sig_start..token.len() {
        let mut bytes = token.as_bytes().to_vec();
        bytes[i] = if bytes[i] == b'A' { b'B' } else { b'A' };
        let tampered = String::from_utf8(bytes).unwrap();
        if tampered == token {
            continue;
        }
        let r = a.validate_jwt_at(tampered.as_str(), NOW);
        assert!(
            matches!(r, Err(Error::Client(ClientError::Unauthorized))),
            "byte {} of the signature flipped, yet the token passed",
            i
        );
    }
    // A byte outside the signature alphabet is also just a denial.
    let mut bytes = token.as_bytes().to_vec();
    let last = bytes.len() - 1;
    bytes[last] = b'!';
    let r = a.validate_jwt_at(String::from_utf8(bytes).unwrap().as_str(), NOW);
    assert!(matches!(r, Err(Error::Client(ClientError::Unauthorized))));
}

#[test]
fn wrong_secret_rejected() {
    let a = auth();
    let other = Auth::new(b"a-different-secret-entirely-here".to_vec());
    let token = a.generate_jwt_at("user123", NOW);
    let r = other.validate_jwt_at(token.as_str(), NOW);
    assert!(matches!(r, Err(Error::Client(ClientError::Unauthorized))));
}

#[test]
fn malformed_token_unauthorized() {
    let a = auth();
    for bad in ["", "notatoken", "a.b", "a.b.c.d", "..."] {
        let r = a.validate_jwt_at(bad, NOW);
        assert!(
            matches!(r, Err(Error::Client(ClientError::Unauthorized))),
            "{:?} was not denied",
            bad
        );
    }
}

#[test]
fn well_signed_but_wrong_payload_is_internal() {
    // A token signed with the right secret whose claims lack the subject:
    // not ordinary invalidity but a codec-level fault, kept distinct from
    // the Unauthorized bucket.
    let a = auth();
    let mut claims = serde_json::Map::new();
    claims.insert("exp".to_string(), serde_json::Value::from(NOW + 1000));
    let token = jsonwebtoken::encode(
        &jsonwebtoken::Header::default(),
        &serde_json::Value::Object(claims),
        &jsonwebtoken::EncodingKey::from_secret(b"a-test-secret-of-reasonable-size"),
    )
    .unwrap();
    let r = a.validate_jwt_at(token.as_str(), NOW);
    assert!(matches!(r, Err(Error::JsonWebToken)));
}

#[test]
fn session_cookie_shape() {
    let c = Auth::cookie("sometoken");
    assert_eq!(
        c,
        "connect.sid=sometoken; HttpOnly; SameSite=Strict; Secure; Path=/; Max-Age=2592000"
    );
}

#[test]
fn clear_cookie_shape() {
    let c = Auth::clear_cookie("sometoken");
    assert_eq!(c, "connect.sid=sometoken; Max-Age=0");
}

#[test]
fn cookie_name_is_fixed() {
    assert_eq!(Auth::COOKIE_NAME, "connect.sid");
}
