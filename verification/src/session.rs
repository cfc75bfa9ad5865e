//! Session resolution: establishing a caller's identity from the request's
//! credential, in a strict mode that fails closed and a permissive mode that
//! degrades to the anonymous identity.
//!
//! The user lookup in the middle of resolution is the store's work. The
//! application performs it between `begin_authenticate` (which yields the
//! subject to look up) and `finish_authenticate` (which judges what the
//! store returned); `spec_authenticate` states the composed outcome.

use vstd::prelude::*;

use crate::auth::{Auth, Claims};
use crate::db::table::User;
use crate::error::{ClientError, Error};
use crate::token::token_outcome;

verus! {

/// The raw evidence of identity on a request, by source. Resolution takes
/// the cookie first and the bearer header second.
pub enum Credential {
    /// A token carried by the session cookie.
    Cookie(String),
    /// A token carried by a bearer authorization header.
    Bearer(String),
    /// No credential at all.
    Absent,
}

impl Credential {
    /// The token this credential carries, if any.
    pub open spec fn spec_token(&self) -> Option<Seq<char>> {
        match self {
            Credential::Cookie(t) => Some(t@),
            Credential::Bearer(t) => Some(t@),
            Credential::Absent => None,
        }
    }
}

/// The fixed priority of credential sources: the cookie's token if one is
/// present, else the bearer header's, else no credential.
pub open spec fn spec_extract(cookie: Option<Seq<char>>, bearer: Option<Seq<char>>) -> Option<
    Seq<char>,
> {
    match cookie {
        Some(t) => Some(t),
        None => bearer,
    }
}

/// Resolves the request's already-parsed credential sources into one
/// credential, cookie first, bearer second.
pub fn extract_credential(cookie: Option<String>, bearer: Option<String>) -> (c: Credential)
    ensures
        c.spec_token() == spec_extract(
            (match cookie {
                Some(t) => Some(t@),
                None => None,
            }),
            (match bearer {
                Some(t) => Some(t@),
                None => None,
            }),
        ),
        c is Cookie <==> cookie is Some,
        c is Bearer <==> cookie is None && bearer is Some,
        c is Absent <==> cookie is None && bearer is None,
{
    match cookie {
        Some(t) => Credential::Cookie(t),
        None => match bearer {
            Some(t) => Credential::Bearer(t),
            None => Credential::Absent,
        },
    }
}

/// What the pre-lookup step of authentication yields for a credential at
/// time `now`: the token's payload, or the denial or fault verifying it
/// produced; an absent credential is a denial outright.
pub open spec fn spec_begin(secret: Seq<u8>, cred: Credential, now: int) -> Result<
    (i64, Seq<char>),
    Error,
> {
    match cred.spec_token() {
        Some(t) => token_outcome(secret, t, now),
        None => Err(Error::Client(ClientError::Unauthorized)),
    }
}

/// The pre-lookup step of authentication: reject an absent credential,
/// verify a present token. On success the claims name the subject whose
/// user record is to be looked up.
pub fn begin_authenticate(auth: &Auth, cred: &Credential, now: i64) -> (r: Result<Claims, Error>)
    ensures
        (match spec_begin(auth.spec_secret(), *cred, now as int) {
            Ok(p) => r matches Ok(c) && c.spec_exp() == p.0 && c.spec_sub() == p.1,
            Err(e) => r matches Err(e2) && e2 == e,
        }),
        cred is Absent ==> r == Err::<Claims, Error>(Error::Client(ClientError::Unauthorized)),
{
    match cred {
        Credential::Cookie(t) => auth.validate_jwt_at(t.as_str(), now),
        Credential::Bearer(t) => auth.validate_jwt_at(t.as_str(), now),
        Credential::Absent => Err(Error::Client(ClientError::Unauthorized)),
    }
}

/// The post-lookup step: a subject whose record is gone is denied exactly
/// like one that never authenticated.
pub fn finish_authenticate(found: Option<User>) -> (r: Result<User, Error>)
    ensures
        (match found {
            Some(u) => r == Ok::<User, Error>(u),
            None => r == Err::<User, Error>(Error::Client(ClientError::Unauthorized)),
        }),
{
    match found {
        Some(u) => Ok(u),
        None => Err(Error::Client(ClientError::Unauthorized)),
    }
}

/// The outcome of strict resolution: the found user after a verified,
/// unexpired credential, and the first failure otherwise.
pub open spec fn spec_authenticate(
    secret: Seq<u8>,
    cred: Credential,
    now: int,
    lookup: Option<User>,
) -> Result<User, Error> {
    match spec_begin(secret, cred, now) {
        Ok(_) => match lookup {
            Some(u) => Ok(u),
            None => Err(Error::Client(ClientError::Unauthorized)),
        },
        Err(e) => Err(e),
    }
}

/// What permissive resolution owes for a strict outcome: the resolved user
/// unchanged on success, the anonymous identity on any failure whatever.
pub open spec fn spec_permissive(outcome: Result<User, Error>, u: User) -> bool {
    match outcome {
        Ok(user) => u == user,
        Err(_) => u.is_anonymous(),
    }
}

/// Permissive resolution: swallow every failure of strict resolution and
/// stand in the anonymous identity. This function never fails.
pub fn authenticate_permissive(outcome: Result<User, Error>) -> (u: User)
    ensures
        spec_permissive(outcome, u),
{
    match outcome {
        Ok(user) => user,
        Err(_) => User::default(),
    }
}

/// Whether a caller is authenticated: the query that asks only that
/// reports the outcome of strict resolution as a plain yes or no, and
/// never fails itself.
pub fn auth_check(outcome: Result<User, Error>) -> (r: bool)
    ensures
        r == outcome is Ok,
{
    match outcome {
        Ok(_) => true,
        Err(_) => false,
    }
}

/// Strict and permissive resolution of a missing credential: strict fails
/// closed with Unauthorized, whatever the store would have returned, while
/// permissive yields exactly the anonymous identity and never fails.
pub proof fn lemma_strict_vs_permissive(
    secret: Seq<u8>,
    now: int,
    lookup: Option<User>,
    u: User,
)
    ensures
        spec_authenticate(secret, Credential::Absent, now, lookup) == Err::<User, Error>(
            Error::Client(ClientError::Unauthorized),
        ),
        spec_permissive(spec_authenticate(secret, Credential::Absent, now, lookup), u)
            <==> u.is_anonymous(),
{
}

} // verus!
