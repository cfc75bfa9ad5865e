//! The token service: signing and verifying compact identity tokens, and
//! rendering the session cookie that carries one.

use vstd::prelude::*;

use crate::error::{ClientError, Error};
use crate::token::{encode_of, decode_of, jwt_decode, jwt_encode, now_unix, token_outcome,
    DecodeOutcome};

verus! {

/// How long a token lives: thirty days, in seconds.
pub const TOKEN_LIFETIME_SECS: i64 = 2_592_000;

/// The decoded payload of an identity token: who it names and when it lapses.
pub struct Claims {
    exp: i64,
    sub: String,
}

impl Claims {
    /// The expiry, as Unix seconds.
    pub closed spec fn spec_exp(&self) -> i64 {
        self.exp
    }

    /// The subject: the identifier of the user the token names.
    pub closed spec fn spec_sub(&self) -> Seq<char> {
        self.sub@
    }

    pub fn sub(&self) -> (r: &str)
        ensures
            r@ == self.spec_sub(),
    {
        self.sub.as_str()
    }

    pub fn exp(&self) -> (r: i64)
        ensures
            r == self.spec_exp(),
    {
        self.exp
    }
}

/// The token service. It owns the process-wide signing secret, handed in
/// once at construction.
pub struct Auth {
    secret: Vec<u8>,
}

impl Auth {
    /// The fixed, well-known name of the session cookie.
    pub const COOKIE_NAME: &'static str = "connect.sid";

    /// The signing secret this service was built with.
    pub closed spec fn spec_secret(&self) -> Seq<u8> {
        self.secret@
    }

    pub fn new(secret: Vec<u8>) -> (a: Auth)
        ensures
            a.spec_secret() == secret@,
    {
        Auth { secret }
    }

    /// Signs a token for `subject` as of the instant `now`, with the fixed
    /// thirty-day lifetime. Signing never fails: the expiry is always
    /// `now` plus thirty days.
    pub fn generate_jwt_at(&self, subject: &str, now: i64) -> (r: String)
        requires
            0 <= now,
            now + TOKEN_LIFETIME_SECS <= i64::MAX,
        ensures
            r@ == encode_of(self.spec_secret(), (now + TOKEN_LIFETIME_SECS) as i64, subject@),
    {
        let exp = now + TOKEN_LIFETIME_SECS;
        jwt_encode(self.secret.as_slice(), exp, subject)
    }

    /// Signs a token for `subject` as of the clock's present reading.
    pub fn generate_jwt(&self, subject: &str) -> (r: String)
        ensures
            exists|exp: i64|
                0 <= exp && #[trigger] encode_of(self.spec_secret(), exp, subject@) == r@,
    {
        let now = now_unix();
        self.generate_jwt_at(subject, now)
    }

    /// Verifies a token against the instant `now`.
    ///
    /// The last two clauses state the round trip and the expiry rule: any
    /// token that `encode_of` accounts for verifies back to its own subject
    /// while `now` has not passed its expiry, and is refused as Unauthorized
    /// (never as an internal fault) once it has.
    pub fn validate_jwt_at(&self, token: &str, now: i64) -> (r: Result<Claims, Error>)
        ensures
            (match token_outcome(self.spec_secret(), token@, now as int) {
                Ok(p) => r matches Ok(c) && c.spec_exp() == p.0 && c.spec_sub() == p.1,
                Err(e) => r matches Err(e2) && e2 == e,
            }),
            forall|exp: i64, sub: Seq<char>|
                0 <= exp && #[trigger] encode_of(self.spec_secret(), exp, sub) == token@ && now
                    <= exp ==> (r matches Ok(c) && c.spec_exp() == exp && c.spec_sub() == sub),
            forall|exp: i64, sub: Seq<char>|
                0 <= exp && #[trigger] encode_of(self.spec_secret(), exp, sub) == token@ && now
                    > exp ==> r == Err::<Claims, Error>(Error::Client(ClientError::Unauthorized)),
    {
        match jwt_decode(self.secret.as_slice(), token) {
            DecodeOutcome::Payload { exp, sub } => {
                if now > exp {
                    Err(Error::Client(ClientError::Unauthorized))
                } else {
                    Ok(Claims { exp, sub })
                }
            },
            DecodeOutcome::Denied => Err(Error::Client(ClientError::Unauthorized)),
            DecodeOutcome::Faulty => Err(Error::JsonWebToken),
        }
    }

    /// Verifies a token against the clock's present reading.
    pub fn validate_jwt(&self, token: &str) -> (r: Result<Claims, Error>)
        ensures
            (match r {
                Ok(c) => decode_of(self.spec_secret(), token@) == Ok::<(i64, Seq<char>), bool>(
                    (c.spec_exp(), c.spec_sub()),
                ),
                Err(e) => e == Error::Client(ClientError::Unauthorized) || e
                    == Error::JsonWebToken,
            }),
            decode_of(self.spec_secret(), token@) == Err::<(i64, Seq<char>), bool>(true) ==> r
                == Err::<Claims, Error>(Error::Client(ClientError::Unauthorized)),
            decode_of(self.spec_secret(), token@) == Err::<(i64, Seq<char>), bool>(false) ==> r
                == Err::<Claims, Error>(Error::JsonWebToken),
            decode_of(self.spec_secret(), token@) matches Ok(p) ==> (r matches Ok(c)
                && c.spec_exp() == p.0 && c.spec_sub() == p.1) || r == Err::<Claims, Error>(
                Error::Client(ClientError::Unauthorized),
            ),
    {
        let now = now_unix();
        self.validate_jwt_at(token, now)
    }

    /// The rendered Set-Cookie text of the persistent session cookie.
    pub open spec fn spec_session_cookie(token: Seq<char>) -> Seq<char> {
        "connect.sid="@ + token
            + "; HttpOnly; SameSite=Strict; Secure; Path=/; Max-Age=2592000"@
    }

    /// The rendered Set-Cookie text that clears the session cookie.
    pub open spec fn spec_clear_cookie(value: Seq<char>) -> Seq<char> {
        "connect.sid="@ + value + "; Max-Age=0"@
    }

    /// Relies on the cookie crate's builder and its Display impl, which
    /// renders "name=value" and then the set attributes in a fixed order.
    #[verifier::external_body]
    pub fn cookie(token: &str) -> (r: String)
        ensures
            r@ == Self::spec_session_cookie(token@),
    {
        cookie::Cookie::build((Self::COOKIE_NAME, token))
            .path("/")
            .secure(true)
            .expires(None)
            .http_only(true)
            .same_site(cookie::SameSite::Strict)
            .max_age(cookie::time::Duration::days(30))
            .build()
            .to_string()
    }

    /// Relies on the cookie crate's Display impl: a bare name=value cookie
    /// with a zero max-age renders as "name=value; Max-Age=0".
    #[verifier::external_body]
    pub fn clear_cookie(value: &str) -> (r: String)
        ensures
            r@ == Self::spec_clear_cookie(value@),
    {
        let mut c = cookie::Cookie::new(Self::COOKIE_NAME, value);
        c.set_max_age(cookie::time::Duration::ZERO);
        c.to_string()
    }
}

} // verus!
