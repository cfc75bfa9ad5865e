//! The trusted boundary around the token codec and the clock.
//!
//! The token wire format (a compact signed string carrying an expiry and a
//! subject) is produced and checked by the `jsonwebtoken` crate; its results
//! are named by the uninterpreted functions below, and everything the library
//! proves about tokens rests on the contracts of the two wrappers.

use vstd::prelude::*;

use crate::error::{ClientError, Error};
use jsonwebtoken::errors::ErrorKind;

verus! {

/// What the token codec produces for a secret, an expiry and a subject.
pub uninterp spec fn encode_of(secret: Seq<u8>, exp: i64, sub: Seq<char>) -> Seq<char>;

/// What the token codec finds in a token under a secret: `Ok((exp, sub))`
/// for an authentic token, `Err(true)` for one to be denied (malformed or
/// wrongly signed), `Err(false)` for a codec fault.
pub uninterp spec fn decode_of(secret: Seq<u8>, token: Seq<char>) -> Result<(i64, Seq<char>), bool>;

/// Whether `r` carries the payload `(exp, sub)`.
pub open spec fn carries_payload(r: DecodeOutcome, exp: i64, sub: Seq<char>) -> bool {
    match r {
        DecodeOutcome::Payload { exp: e, sub: s } => e == exp && s@ == sub,
        _ => false,
    }
}

/// The raw result of checking a token, before the expiry decision.
pub enum DecodeOutcome {
    /// The signature is valid and the payload carries an expiry and a subject.
    Payload { exp: i64, sub: String },
    /// The token is malformed or its signature does not match.
    Denied,
    /// The codec failed in a way that is not ordinary invalidity.
    Faulty,
}

/// Relies on jsonwebtoken's `encode` with an HS256 header: the token is a
/// deterministic function of the secret and the claims `{exp, sub}`, and
/// signing cannot fail — an HMAC takes a secret of any length, and the
/// fixed header and flat claims always serialize. Expiries are
/// non-negative, as the wire format requires.
#[verifier::external_body]
pub(crate) fn jwt_encode(secret: &[u8], exp: i64, sub: &str) -> (r: String)
    requires
        0 <= exp,
    ensures
        r@ == encode_of(secret@, exp, sub@),
{
    let mut claims = serde_json::Map::new();
    claims.insert("exp".to_string(), serde_json::Value::from(exp));
    claims.insert("sub".to_string(), serde_json::Value::from(sub));
    jsonwebtoken::encode(
        &jsonwebtoken::Header::default(),
        &serde_json::Value::Object(claims),
        &jsonwebtoken::EncodingKey::from_secret(secret),
    )
    .expect("HS256 signing of flat claims has no failure path")
}

/// Relies on jsonwebtoken's `decode` with signature checking on and the
/// time-based expiry check off, so the outcome depends on the secret and the
/// token alone. A token that `encode_of` accounts for is returned exactly as
/// signed; a malformed token or a wrong signature is `Denied`; every other
/// failure of the codec is `Faulty`.
#[verifier::external_body]
pub(crate) fn jwt_decode(secret: &[u8], token: &str) -> (r: DecodeOutcome)
    ensures
        (match r {
            DecodeOutcome::Payload { exp, sub } => decode_of(secret@, token@) == Ok::<
                (i64, Seq<char>),
                bool,
            >((exp, sub@)),
            DecodeOutcome::Denied => decode_of(secret@, token@) == Err::<
                (i64, Seq<char>),
                bool,
            >(true),
            DecodeOutcome::Faulty => decode_of(secret@, token@) == Err::<
                (i64, Seq<char>),
                bool,
            >(false),
        }),
        forall|e: i64, s: Seq<char>|
            0 <= e && #[trigger] encode_of(secret@, e, s) == token@ ==> carries_payload(r, e, s),
{
    let mut validation = jsonwebtoken::Validation::default();
    validation.validate_exp = false;
    let key = jsonwebtoken::DecodingKey::from_secret(secret);
    let data = match jsonwebtoken::decode::<serde_json::Value>(token, &key, &validation) {
        Ok(data) => data,
        Err(e) => return match e.kind() {
            ErrorKind::InvalidToken | ErrorKind::InvalidSignature | ErrorKind::ExpiredSignature | ErrorKind::Base64(_) => DecodeOutcome::Denied,
            _ => DecodeOutcome::Faulty,
        },
    };
    match (data.claims.get("exp").and_then(|v| v.as_i64()), data.claims.get("sub").and_then(|v| v.as_str())) {
        (Some(exp), Some(sub)) => DecodeOutcome::Payload { exp, sub: sub.to_string() },
        _ => DecodeOutcome::Faulty,
    }
}

/// Relies on chrono's `Utc::now`: the clock reading as Unix seconds. It is
/// never negative (chrono refuses a system clock before the epoch), and
/// chrono keeps datetimes below the year 262143, so the timestamp lies
/// well inside the stated bound.
#[verifier::external_body]
pub(crate) fn now_unix() -> (r: i64)
    ensures
        0 <= r <= 8_400_000_000_000,
{
    chrono::Utc::now().timestamp()
}

/// What verifying a token at time `now` yields: the payload of an authentic,
/// unexpired token; `Unauthorized` for an expired, malformed or wrongly
/// signed one; an internal fault for every other codec failure. The two
/// denial causes are indistinguishable to callers.
pub open spec fn token_outcome(secret: Seq<u8>, token: Seq<char>, now: int) -> Result<
    (i64, Seq<char>),
    Error,
> {
    match decode_of(secret, token) {
        Ok(p) => if now > p.0 {
            Err(Error::Client(ClientError::Unauthorized))
        } else {
            Ok(p)
        },
        Err(denied) => if denied {
            Err(Error::Client(ClientError::Unauthorized))
        } else {
            Err(Error::JsonWebToken)
        },
    }
}

} // verus!
