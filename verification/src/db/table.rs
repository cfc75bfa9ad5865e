//! The plain shapes of rows the store hands back, as far as this library
//! reads them: a bare record id, a post's counters, the caller-relative
//! status of a post, a user record, and a tag.

use vstd::prelude::*;

verus! {

/// A bare record: just the identifier of a row.
pub struct Record {
    id: String,
}

impl Record {
    pub closed spec fn spec_id(&self) -> Seq<char> {
        self.id@
    }

    pub fn new(id: String) -> (r: Record)
        ensures
            r.spec_id() == id@,
    {
        Record { id }
    }

    pub fn id(&self) -> (r: &str)
        ensures
            r@ == self.spec_id(),
    {
        self.id.as_str()
    }
}

/// A post's counters, as selected alongside a topic or a reply.
pub struct Counter {
    likes: u64,
    shares: u64,
    replies: u64,
    views: Option<u64>,
}

impl Counter {
    pub closed spec fn spec_likes(&self) -> u64 {
        self.likes
    }

    pub closed spec fn spec_shares(&self) -> u64 {
        self.shares
    }

    pub closed spec fn spec_replies(&self) -> u64 {
        self.replies
    }

    pub closed spec fn spec_views(&self) -> Option<u64> {
        self.views
    }

    pub fn new(likes: u64, shares: u64, replies: u64, views: Option<u64>) -> (c: Counter)
        ensures
            c.spec_likes() == likes,
            c.spec_shares() == shares,
            c.spec_replies() == replies,
            c.spec_views() == views,
    {
        Counter { likes, shares, replies, views }
    }

    pub fn likes(&self) -> (r: u64)
        ensures
            r == self.spec_likes(),
    {
        self.likes
    }

    pub fn shares(&self) -> (r: u64)
        ensures
            r == self.spec_shares(),
    {
        self.shares
    }

    pub fn replies(&self) -> (r: u64)
        ensures
            r == self.spec_replies(),
    {
        self.replies
    }

    pub fn views(&self) -> (r: Option<u64>)
        ensures
            r == self.spec_views(),
    {
        self.views
    }
}

/// How a post stands relative to the caller's identity.
pub struct UserStatus {
    identity: u64,
    is_liked: bool,
    is_owner: bool,
    is_shared: bool,
}

impl UserStatus {
    pub closed spec fn spec_identity(&self) -> u64 {
        self.identity
    }

    pub closed spec fn spec_is_liked(&self) -> bool {
        self.is_liked
    }

    pub closed spec fn spec_is_owner(&self) -> bool {
        self.is_owner
    }

    pub closed spec fn spec_is_shared(&self) -> bool {
        self.is_shared
    }

    pub fn new(identity: u64, is_liked: bool, is_owner: bool, is_shared: bool) -> (s: UserStatus)
        ensures
            s.spec_identity() == identity,
            s.spec_is_liked() == is_liked,
            s.spec_is_owner() == is_owner,
            s.spec_is_shared() == is_shared,
    {
        UserStatus { identity, is_liked, is_owner, is_shared }
    }

    pub fn identity(&self) -> (r: u64)
        ensures
            r == self.spec_identity(),
    {
        self.identity
    }

    pub fn is_owner(&self) -> (r: bool)
        ensures
            r == self.spec_is_owner(),
    {
        self.is_owner
    }

    pub fn is_liked(&self) -> (r: bool)
        ensures
            r == self.spec_is_liked(),
    {
        self.is_liked
    }

    pub fn is_shared(&self) -> (r: bool)
        ensures
            r == self.spec_is_shared(),
    {
        self.is_shared
    }
}

/// A user record: the identifier and the stored password hash. The anonymous
/// default identity carries the zero identifier and an empty hash.
#[derive(Clone)]
pub struct User {
    id: String,
    password: String,
}

impl User {
    pub closed spec fn spec_id(&self) -> Seq<char> {
        self.id@
    }

    pub closed spec fn spec_password(&self) -> Seq<char> {
        self.password@
    }

    /// The anonymous default identity: the sentinel zero identifier.
    pub open spec fn is_anonymous(&self) -> bool {
        self.spec_id() == "0"@ && self.spec_password() == ""@
    }

    pub fn new(id: String, password: String) -> (u: User)
        ensures
            u.spec_id() == id@,
            u.spec_password() == password@,
    {
        User { id, password }
    }

    pub fn id(&self) -> (r: &str)
        ensures
            r@ == self.spec_id(),
    {
        self.id.as_str()
    }

    pub fn password(&self) -> (r: &str)
        ensures
            r@ == self.spec_password(),
    {
        self.password.as_str()
    }
}

impl Default for User {
    fn default() -> (u: Self)
        ensures
            u.is_anonymous(),
    {
        let u = User { id: String::from_str("0"), password: String::new() };
        proof {
            reveal_strlit("");
            assert(u.spec_password() =~= ""@);
        }
        u
    }
}

/// A tag attached to a topic, as bound into the store's create and update
/// queries.
pub struct Tag {
    name: String,
}

impl Tag {
    pub closed spec fn spec_name(&self) -> Seq<char> {
        self.name@
    }

    pub fn new(name: String) -> (t: Tag)
        ensures
            t.spec_name() == name@,
    {
        Tag { name }
    }

    pub fn name(&self) -> (r: &str)
        ensures
            r@ == self.spec_name(),
    {
        self.name.as_str()
    }
}

} // verus!
