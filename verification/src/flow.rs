//! The decision steps of the write and account operations, between the
//! store calls that the surrounding application performs.
//!
//! Each function here takes what the store returned as a plain value and
//! decides the outcome: which error the caller sees, which token or cookie
//! is issued, and which live event is published on which channel key. A
//! reply event is routed to its parent topic's channel, never to the
//! reply's own id.
//!
//! Likes and shares deliberately publish no live event, unlike creates
//! and updates; only the latter carry the publish step.

use vstd::prelude::*;

use crate::auth::{Auth, TOKEN_LIFETIME_SECS};
use crate::db::table::{Record, User};
use crate::error::{ClientError, Error};
use crate::events::{ReplyData, TopicData};
use crate::token::encode_of;

verus! {

/// What bcrypt's verify decides for a password against a stored hash:
/// `Some(matched)`, or `None` for a hash it cannot read.
pub uninterp spec fn bcrypt_check(password: Seq<char>, hash: Seq<char>) -> Option<bool>;

/// Relies on bcrypt's `verify`: deterministic in the password and the
/// stored hash (the salt and cost are read back out of the hash).
#[verifier::external_body]
fn bcrypt_verify(password: &str, hash: &str) -> (r: Option<bool>)
    ensures
        r == bcrypt_check(password@, hash@),
{
    bcrypt::verify(password, hash).ok()
}

/// Relies on bcrypt's `hash` under its default cost: whatever salt is
/// drawn, the produced hash verifies against the password it hashed.
#[verifier::external_body]
fn bcrypt_hash(password: &str) -> (r: Option<String>)
    ensures
        r matches Some(h) ==> bcrypt_check(password@, h@) == Some(true),
{
    bcrypt::hash(password, bcrypt::DEFAULT_COST).ok()
}

/// What `str::to_lowercase` yields: a function of the characters alone.
pub uninterp spec fn lower_of(s: Seq<char>) -> Seq<char>;

/// Relies on `str::to_lowercase`.
#[verifier::external_body]
fn lowercase(s: &str) -> (r: String)
    ensures
        r@ == lower_of(s@),
{
    s.to_lowercase()
}

/// The key under which the store holds an account: the lower-cased email.
pub fn normalize_email(email: &str) -> (r: String)
    ensures
        r@ == lower_of(email@),
{
    lowercase(email)
}

/// The sign-up rule on passwords: at least eight characters.
pub fn validate_password(password: &str) -> (r: bool)
    ensures
        r == (password@.len() >= 8),
{
    password.unicode_len() >= 8
}

/// Whether a character counts as whitespace when a tag string is split.
pub uninterp spec fn is_space(c: char) -> bool;

/// Relies on `char::is_whitespace`: a property of the character alone.
#[verifier::external_body]
fn char_is_space(c: char) -> (r: bool)
    ensures
        r == is_space(c),
{
    c.is_whitespace()
}

/// A maximal run of non-whitespace characters: the word `s[i..j]`.
pub open spec fn is_word_at(s: Seq<char>, i: int, j: int) -> bool {
    &&& 0 <= i < j <= s.len()
    &&& (forall|k: int| i <= k < j ==> !is_space(s[k]))
    &&& (i == 0 || is_space(s[i - 1]))
    &&& (j == s.len() || is_space(s[j]))
}

/// A word without its leading '#' marks.
pub open spec fn strip_hash(w: Seq<char>) -> Seq<char>
    decreases w.len(),
{
    if w.len() > 0 && w.first() == '#' {
        strip_hash(w.drop_first())
    } else {
        w
    }
}

/// The normalized reading of the word `s[i..j]`: its leading '#' marks
/// dropped, the rest lower-cased.
pub open spec fn tag_of(s: Seq<char>, i: int, j: int) -> Seq<char> {
    lower_of(strip_hash(s.subrange(i, j)))
}

/// Whether `t` reads as the normalized form of some word of `s`.
pub open spec fn is_tag_of(s: Seq<char>, t: Seq<char>) -> bool {
    exists|p: int, q: int| is_word_at(s, p, q) && t == tag_of(s, p, q)
}

proof fn lemma_strip_hash_at(w: Seq<char>, k: int)
    requires
        0 <= k <= w.len(),
        forall|m: int| 0 <= m < k ==> w[m] == '#',
        k == w.len() || w[k] != '#',
    ensures
        strip_hash(w) =~= w.subrange(k, w.len() as int),
    decreases k,
{
    if k == 0 {
        assert(w.subrange(0, w.len() as int) =~= w);
    } else {
        assert(w.first() == '#');
        lemma_strip_hash_at(w.drop_first(), k - 1);
        assert(w.drop_first().subrange(k - 1, w.drop_first().len() as int) =~= w.subrange(
            k,
            w.len() as int,
        ));
    }
}

fn contains_string(v: &Vec<String>, x: &String) -> (r: bool)
    ensures
        r == (exists|a: int| 0 <= a < v@.len() && v@[a]@ == x@),
{
    let n = v.len();
    let mut i: usize = 0;
    while i < n
        invariant
            i <= n,
            n == v@.len(),
            forall|a: int| 0 <= a < i ==> v@[a]@ != x@,
        decreases n - i,
    {
        if v[i] == *x {
            assert(v@[i as int]@ == x@);
            return true;
        }
        i = i + 1;
    }
    false
}

/// Splits a raw tag string into its distinct normalized tags: each
/// whitespace-separated word, stripped of leading '#' marks and
/// lower-cased, kept once. The result holds exactly the normalized
/// readings of the string's words, without duplicates.
pub fn parse_tags(tags: &str) -> (r: Vec<String>)
    ensures
        forall|a: int, b: int| 0 <= a < b < r@.len() ==> r@[a]@ != r@[b]@,
        forall|a: int| #![trigger r@[a]] 0 <= a < r@.len() ==> is_tag_of(tags@, r@[a]@),
        forall|p: int, q: int|
            is_word_at(tags@, p, q) ==> exists|a: int|
                0 <= a < r@.len() && r@[a]@ == tag_of(tags@, p, q),
{
    let ghost s = tags@;
    let n = tags.unicode_len();
    let mut result: Vec<String> = Vec::new();
    let ghost mut witness: Seq<(int, int)> = Seq::empty();
    let mut i: usize = 0;
    while i < n
        invariant
            n == s.len(),
            s == tags@,
            i <= n,
            i == 0 || i == n || is_space(s[i as int - 1]) || is_space(s[i as int]),
            forall|a: int, b: int| 0 <= a < b < result@.len() ==> result@[a]@ != result@[b]@,
            witness.len() == result@.len(),
            forall|a: int| #![trigger witness[a]]
                0 <= a < result@.len() ==> is_word_at(s, witness[a].0, witness[a].1)
                    && result@[a]@ == tag_of(s, witness[a].0, witness[a].1),
            forall|p: int, q: int|
                is_word_at(s, p, q) && q <= i ==> exists|a: int|
                    0 <= a < result@.len() && result@[a]@ == tag_of(s, p, q),
        decreases n - i,
    {
        if char_is_space(tags.get_char(i)) {
            i = i + 1;
        } else {
            let start = i;
            let mut j: usize = i + 1;
            while j < n && !char_is_space(tags.get_char(j))
                invariant
                    n == s.len(),
                    s == tags@,
                    start < j <= n,
                    forall|k: int| start <= k < j ==> !is_space(s[k]),
                decreases n - j,
            {
                j = j + 1;
            }
            let word = tags.substring_char(start, j);
            let wl = j - start;
            let mut k: usize = 0;
            while k < wl && word.get_char(k) == '#'
                invariant
                    wl == word@.len(),
                    k <= wl,
                    forall|m: int| 0 <= m < k ==> word@[m] == '#',
                decreases wl - k,
            {
                k = k + 1;
            }
            let trimmed = word.substring_char(k, wl);
            let lowered = lowercase(trimmed);
            let ghost low = lowered@;
            proof {
                lemma_strip_hash_at(word@, k as int);
                assert(low == tag_of(s, start as int, j as int));
                assert(is_word_at(s, start as int, j as int));
            }
            let was_there = contains_string(&result, &lowered);
            let ghost pre = result@;
            if !was_there {
                result.push(lowered);
                proof {
                    witness = witness.push((start as int, j as int));
                }
            }
            proof {
                assert(forall|a: int| 0 <= a < pre.len() ==> #[trigger] result@[a] == pre[a]);
                assert(exists|a: int| 0 <= a < result@.len() && #[trigger] result@[a]@ == low) by {
                    if !was_there {
                        assert(result@[pre.len() as int]@ == low);
                    }
                }
                assert forall|p: int, q: int| is_word_at(s, p, q) && q <= j as int implies exists|
                    a: int,
                |
                    0 <= a < result@.len() && #[trigger] result@[a]@ == tag_of(s, p, q) by {
                    if q <= i as int {
                        let a = choose|a: int|
                            0 <= a < pre.len() && pre[a]@ == tag_of(s, p, q);
                        assert(result@[a]@ == tag_of(s, p, q));
                    } else {
                        // The only word ending inside (i, j] is [start, j)
                        // itself: inside the run nothing is whitespace, and
                        // both of its neighbours are boundaries.
                        if q < j as int {
                            assert(!is_space(s[q]));
                            assert(false);
                        }
                        if p < start as int {
                            assert(p <= start as int - 1 < q);
                            assert(!is_space(s[start as int - 1]));
                            assert(start as int == 0 || is_space(s[start as int - 1]));
                            assert(false);
                        }
                        if p > start as int {
                            assert(start as int <= p - 1 < j as int);
                            assert(!is_space(s[p - 1]));
                            assert(p == 0 || is_space(s[p - 1]));
                            assert(false);
                        }
                        assert(p == start as int && q == j as int);
                        assert(tag_of(s, p, q) == low);
                    }
                }
            }
            i = j;
        }
    }
    proof {
        assert forall|a: int| #![trigger result@[a]]
            0 <= a < result@.len() implies is_tag_of(tags@, result@[a]@) by {
            assert(is_word_at(s, witness[a].0, witness[a].1) && result@[a]@ == tag_of(
                s,
                witness[a].0,
                witness[a].1,
            ));
        }
    }
    result
}

/// Judges the account lookup of a login: an unknown email is its own,
/// deliberate error.
pub fn login_lookup(found: Option<User>) -> (r: Result<User, Error>)
    ensures
        (match found {
            Some(u) => r == Ok::<User, Error>(u),
            None => r == Err::<User, Error>(Error::Client(ClientError::EmailNotFound)),
        }),
{
    match found {
        Some(u) => Ok(u),
        None => Err(Error::Client(ClientError::EmailNotFound)),
    }
}

/// Checks the presented password against the account's stored hash: a
/// mismatch is InvalidPassword, an unreadable hash an internal fault.
pub fn check_password(user: &User, password: &str) -> (r: Result<(), Error>)
    ensures
        (match bcrypt_check(password@, user.spec_password()) {
            Some(true) => r == Ok::<(), Error>(()),
            Some(false) => r == Err::<(), Error>(Error::Client(ClientError::InvalidPassword)),
            None => r == Err::<(), Error>(Error::Bcrypt),
        }),
{
    match bcrypt_verify(password, user.password()) {
        Some(true) => Ok(()),
        Some(false) => Err(Error::Client(ClientError::InvalidPassword)),
        None => Err(Error::Bcrypt),
    }
}

/// What a successful login hands back: the token, and the persistent
/// session cookie when the caller asked to be remembered.
pub struct LoginOutcome {
    pub token: String,
    pub set_cookie: Option<String>,
}

/// Issues the session for an authenticated login: a fresh thirty-day
/// token, and, exactly when `remember_me` is set, the persistent cookie
/// carrying it. Issuing never fails.
pub fn login_session(auth: &Auth, user: &User, remember_me: bool, now: i64) -> (r: LoginOutcome)
    requires
        0 <= now,
        now + TOKEN_LIFETIME_SECS <= i64::MAX,
    ensures
        encode_of(auth.spec_secret(), (now + TOKEN_LIFETIME_SECS) as i64, user.spec_id())
            == r.token@,
        (if remember_me {
            r.set_cookie matches Some(c) && c@ == Auth::spec_session_cookie(r.token@)
        } else {
            r.set_cookie is None
        }),
{
    let token = auth.generate_jwt_at(user.id(), now);
    let set_cookie = if remember_me {
        Some(Auth::cookie(token.as_str()))
    } else {
        None
    };
    LoginOutcome { token, set_cookie }
}

/// Judges the uniqueness lookup of a sign-up: an already-known email is
/// refused before anything is written.
pub fn sign_up_precheck(existing: Option<User>) -> (r: Result<(), Error>)
    ensures
        (match existing {
            Some(_) => r == Err::<(), Error>(Error::Client(ClientError::EmailTaken)),
            None => r == Ok::<(), Error>(()),
        }),
{
    match existing {
        Some(_) => Err(Error::Client(ClientError::EmailTaken)),
        None => Ok(()),
    }
}

/// Hashes the new account's password for storage.
pub fn hash_password(password: &str) -> (r: Result<String, Error>)
    ensures
        (match r {
            Ok(h) => bcrypt_check(password@, h@) == Some(true),
            Err(e) => e == Error::Bcrypt,
        }),
{
    match bcrypt_hash(password) {
        Some(h) => Ok(h),
        None => Err(Error::Bcrypt),
    }
}

/// Finishes a sign-up once the store answered the create: a missing record
/// is an internal fault naming the user table; a created one always gets
/// its first token.
pub fn sign_up_session(auth: &Auth, created: Option<User>, now: i64) -> (r: Result<String, Error>)
    requires
        0 <= now,
        now + TOKEN_LIFETIME_SECS <= i64::MAX,
    ensures
        (match created {
            Some(u) => r matches Ok(t) && encode_of(
                auth.spec_secret(),
                (now + TOKEN_LIFETIME_SECS) as i64,
                u.spec_id(),
            ) == t@,
            None => r matches Err(e) && e matches Error::RecordNotCreated(t) && t@ == "user"@,
        }),
{
    match created {
        Some(u) => Ok(auth.generate_jwt_at(u.id(), now)),
        None => Err(Error::RecordNotCreated(String::from_str("user"))),
    }
}

/// Logs out: with no session cookie on the request there is nothing to do;
/// with one, the response clears it by an immediate-expiry cookie of the
/// same value.
pub fn logout(cookie_value: Option<String>) -> (r: (String, Option<String>))
    ensures
        (match cookie_value {
            None => r.0@ == "User already logged out"@ && r.1 is None,
            Some(v) => r.0@ == "User logged out successfully"@ && (r.1 matches Some(c) && c@
                == Auth::spec_clear_cookie(v@)),
        }),
{
    match cookie_value {
        None => (String::from_str("User already logged out"), None),
        Some(v) => (
            String::from_str("User logged out successfully"),
            Some(Auth::clear_cookie(v.as_str())),
        ),
    }
}

/// Judges the existence lookup of a topic a write refers to.
pub fn validate_topic(found: Option<Record>) -> (r: Result<Record, Error>)
    ensures
        (match found {
            Some(rec) => r == Ok::<Record, Error>(rec),
            None => r == Err::<Record, Error>(Error::Client(ClientError::TopicNotFound)),
        }),
{
    match found {
        Some(rec) => Ok(rec),
        None => Err(Error::Client(ClientError::TopicNotFound)),
    }
}

/// Judges the existence lookup of a reply a write refers to.
pub fn validate_reply(found: Option<Record>) -> (r: Result<Record, Error>)
    ensures
        (match found {
            Some(rec) => r == Ok::<Record, Error>(rec),
            None => r == Err::<Record, Error>(Error::Client(ClientError::ReplyNotFound)),
        }),
{
    match found {
        Some(rec) => Ok(rec),
        None => Err(Error::Client(ClientError::ReplyNotFound)),
    }
}

/// Concludes a reply creation: the store's returned id becomes a Created
/// reply event, routed to the parent topic's channel key; no id means the
/// record was not created.
pub fn reply_created(topic_id: &str, created: Option<String>) -> (r: Result<
    (String, ReplyData),
    Error,
>)
    ensures
        (match created {
            Some(id) => r matches Ok((key, ev)) && key@ == topic_id@ && ev.spec_id() == id@
                && ev.spec_kind() == "Created"@ && ev.spec_class() == "Reply"@,
            None => r matches Err(e) && e matches Error::RecordNotCreated(t) && t@ == "reply"@,
        }),
{
    match created {
        Some(id) => Ok((topic_id.to_owned(), ReplyData::new(id, "Created", "Reply"))),
        None => Err(Error::RecordNotCreated(String::from_str("reply"))),
    }
}

/// Concludes a reply update: the store answers only for a reply the caller
/// wrote, so no id is an authorization denial; an id becomes an Updated
/// reply event on the parent topic's channel key.
pub fn reply_updated(topic_id: &str, updated: Option<String>) -> (r: Result<
    (String, ReplyData),
    Error,
>)
    ensures
        (match updated {
            Some(id) => r matches Ok((key, ev)) && key@ == topic_id@ && ev.spec_id() == id@
                && ev.spec_kind() == "Updated"@ && ev.spec_class() == "Reply"@,
            None => r matches Err(e) && e == Error::Client(ClientError::Unauthorized),
        }),
{
    match updated {
        Some(id) => Ok((topic_id.to_owned(), ReplyData::new(id, "Updated", "Reply"))),
        None => Err(Error::Client(ClientError::Unauthorized)),
    }
}

/// Concludes a topic creation: the new id goes back to the caller and, as
/// a TopicCreated event, to the process-wide broadcaster.
pub fn topic_created(created: Option<String>) -> (r: Result<(String, TopicData), Error>)
    ensures
        (match created {
            Some(id) => r matches Ok((ret, ev)) && ret@ == id@ && ev.spec_id() == id@,
            None => r matches Err(e) && e matches Error::RecordNotCreated(t) && t@ == "topic"@,
        }),
{
    match created {
        Some(id) => {
            let ev = TopicData::new(id.clone());
            Ok((id, ev))
        },
        None => Err(Error::RecordNotCreated(String::from_str("topic"))),
    }
}

/// Concludes a topic update: no id is an authorization denial; an id
/// becomes an Updated event of class Topic on the topic's own channel key.
pub fn topic_updated(topic_id: &str, updated: Option<String>) -> (r: Result<
    (String, ReplyData),
    Error,
>)
    ensures
        (match updated {
            Some(_) => r matches Ok((key, ev)) && key@ == topic_id@ && ev.spec_id() == topic_id@
                && ev.spec_kind() == "Updated"@ && ev.spec_class() == "Topic"@,
            None => r matches Err(e) && e == Error::Client(ClientError::Unauthorized),
        }),
{
    match updated {
        Some(_) => Ok((topic_id.to_owned(), ReplyData::new(topic_id.to_owned(), "Updated", "Topic"))),
        None => Err(Error::Client(ClientError::Unauthorized)),
    }
}

/// Concludes a like or a share of a topic or a reply: the store answers
/// with the post's id only when the post exists, so no id is a denial. No
/// live event is published for these.
pub fn engagement_outcome(found: Option<String>) -> (r: Result<(), Error>)
    ensures
        (match found {
            Some(_) => r == Ok::<(), Error>(()),
            None => r == Err::<(), Error>(Error::Client(ClientError::Unauthorized)),
        }),
{
    match found {
        Some(_) => Ok(()),
        None => Err(Error::Client(ClientError::Unauthorized)),
    }
}

} // verus!
