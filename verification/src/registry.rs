//! The live-event distribution layer: a registry of broadcast channels
//! keyed by topic identifier, and the process-wide broadcaster for "new
//! topic" events.
//!
//! The registry's model is a map from key to channel identity, so one key
//! names at most one channel: every handle obtained for a key — by
//! `get_or_create` or `subscribe`, before or after the channel existed —
//! carries the identity the map holds for that key, which is what makes the
//! handles interchangeable. Entries are created by `get_or_create` and
//! `subscribe` alone and live for the registry's lifetime; `publish` never
//! creates one.
//!
//! The registry itself is a plain value: the surrounding application owns
//! it behind one mutual-exclusion lock and serializes all registry calls
//! through that critical section, which is what resolves the creation race
//! (whichever caller enters first inserts the canonical channel; later
//! callers find it and reuse it).

use vstd::prelude::*;

use crate::channel::{ChannelReceiver, ChannelSender};
use crate::events::{ReplyData, TopicData};

verus! {

/// Every channel of this layer keeps a buffer of one event: a slow
/// subscriber loses old events rather than ever blocking a publisher.
pub const CHANNEL_CAPACITY: usize = 1;

/// The model of a registry's entries: each key maps to the identity of its
/// one channel.
spec fn entries_map(s: Seq<(String, ChannelSender<ReplyData>)>) -> Map<Seq<char>, int>
    decreases s.len(),
{
    if s.len() == 0 {
        Map::empty()
    } else {
        entries_map(s.drop_last()).insert(s.last().0@, s.last().1.channel_id())
    }
}

proof fn lemma_entries_map_index(s: Seq<(String, ChannelSender<ReplyData>)>, i: int)
    requires
        0 <= i < s.len(),
        forall|a: int, b: int| 0 <= a < b < s.len() ==> s[a].0@ != s[b].0@,
    ensures
        entries_map(s).contains_key(s[i].0@),
        entries_map(s)[s[i].0@] == s[i].1.channel_id(),
    decreases s.len(),
{
    if i < s.len() - 1 {
        lemma_entries_map_index(s.drop_last(), i);
    }
}

proof fn lemma_entries_map_index_weak(s: Seq<(String, ChannelSender<ReplyData>)>, i: int)
    requires
        0 <= i < s.len(),
    ensures
        entries_map(s).contains_key(s[i].0@),
    decreases s.len(),
{
    if i < s.len() - 1 && s.last().0@ != s[i].0@ {
        lemma_entries_map_index_weak(s.drop_last(), i);
    }
}

proof fn lemma_entries_map_absent(s: Seq<(String, ChannelSender<ReplyData>)>, key: Seq<char>)
    requires
        forall|i: int| 0 <= i < s.len() ==> s[i].0@ != key,
    ensures
        !entries_map(s).contains_key(key),
    decreases s.len(),
{
    if s.len() > 0 {
        lemma_entries_map_absent(s.drop_last(), key);
    }
}

proof fn lemma_entries_map_witness(s: Seq<(String, ChannelSender<ReplyData>)>, key: Seq<char>)
    requires
        entries_map(s).contains_key(key),
    ensures
        exists|i: int|
            0 <= i < s.len() && s[i].0@ == key && entries_map(s)[key] == s[i].1.channel_id(),
    decreases s.len(),
{
    if s.len() > 0 && s.last().0@ != key {
        lemma_entries_map_witness(s.drop_last(), key);
        let i = choose|i: int|
            0 <= i < s.drop_last().len() && s.drop_last()[i].0@ == key && entries_map(
                s.drop_last(),
            )[key] == s.drop_last()[i].1.channel_id();
        assert(s[i].0@ == key && entries_map(s)[key] == s[i].1.channel_id());
    }
}

proof fn lemma_entries_map_finite(s: Seq<(String, ChannelSender<ReplyData>)>)
    requires
        forall|a: int, b: int| 0 <= a < b < s.len() ==> s[a].0@ != s[b].0@,
    ensures
        entries_map(s).dom().finite(),
        entries_map(s).dom().len() == s.len(),
    decreases s.len(),
{
    if s.len() > 0 {
        lemma_entries_map_finite(s.drop_last());
        lemma_entries_map_absent(s.drop_last(), s.last().0@);
    }
}

/// The shared map from topic identifier to its one broadcast channel,
/// populated lazily and never evicted.
pub struct ChannelRegistry {
    entries: Vec<(String, ChannelSender<ReplyData>)>,
    fresh: Ghost<int>,
}

impl View for ChannelRegistry {
    type V = Map<Seq<char>, int>;

    closed spec fn view(&self) -> Map<Seq<char>, int> {
        entries_map(self.entries@)
    }
}

impl ChannelRegistry {
    /// Well-formed: keys are unique, and every channel identity lies below
    /// the next fresh one.
    pub closed spec fn wf(&self) -> bool {
        &&& forall|a: int, b: int|
            0 <= a < b < self.entries@.len() ==> self.entries@[a].0@ != self.entries@[b].0@
        &&& forall|i: int|
            0 <= i < self.entries@.len() ==> self.entries@[i].1.channel_id() < self.fresh@
    }

    pub fn new() -> (r: ChannelRegistry)
        ensures
            r.wf(),
            r@ == Map::<Seq<char>, int>::empty(),
    {
        ChannelRegistry { entries: Vec::new(), fresh: Ghost(0) }
    }

    fn find(&self, key: &String) -> (r: Option<usize>)
        ensures
            (match r {
                Some(i) => i < self.entries@.len() && self.entries@[i as int].0@ == key@,
                None => forall|i: int| 0 <= i < self.entries@.len() ==> self.entries@[i].0@ != key@,
            }),
    {
        let n = self.entries.len();
        let mut i: usize = 0;
        while i < n
            invariant
                n == self.entries@.len(),
                i <= n,
                forall|j: int| 0 <= j < i ==> self.entries@[j].0@ != key@,
            decreases n - i,
        {
            if self.entries[i].0 == *key {
                return Some(i);
            }
            i = i + 1;
        }
        None
    }

    /// The publish handle for `key`: the existing channel's if the key is
    /// known, else a fresh channel's, inserted for every later caller to
    /// find. A fresh channel's identity differs from every channel already
    /// in the registry.
    pub fn get_or_create(&mut self, key: &str) -> (r: ChannelSender<ReplyData>)
        requires
            old(self).wf(),
        ensures
            final(self).wf(),
            old(self)@.contains_key(key@) ==> final(self)@ == old(self)@ && r.channel_id() == old(
                self,
            )@[key@],
            !old(self)@.contains_key(key@) ==> final(self)@ == old(self)@.insert(
                key@,
                r.channel_id(),
            ) && (forall|k: Seq<char>|
                old(self)@.contains_key(k) ==> r.channel_id() != old(self)@[k]),
    {
        let owned = key.to_owned();
        match self.find(&owned) {
            Some(i) => {
                proof {
                    lemma_entries_map_index(self.entries@, i as int);
                }
                self.entries[i].1.duplicate()
            },
            None => {
                proof {
                    lemma_entries_map_absent(self.entries@, key@);
                }
                let id = Ghost(self.fresh@);
                let (tx, _rx) = ChannelSender::<ReplyData>::create(CHANNEL_CAPACITY, id);
                let handle = tx.duplicate();
                let ghost pre = self.entries@;
                self.entries.push((owned, tx));
                self.fresh = Ghost(self.fresh@ + 1);
                proof {
                    assert(self.entries@.drop_last() =~= pre);
                    assert forall|k: Seq<char>| old(self)@.contains_key(k) implies handle.channel_id()
                        != old(self)@[k] by {
                        lemma_entries_map_witness(pre, k);
                    }
                }
                handle
            },
        }
    }

    /// A new receiving end of `key`'s channel, with the same lazy creation
    /// as `get_or_create`. The receiver is attached to the one channel the
    /// registry holds for `key` afterwards.
    pub fn subscribe(&mut self, key: &str) -> (r: ChannelReceiver<ReplyData>)
        requires
            old(self).wf(),
        ensures
            final(self).wf(),
            final(self)@.contains_key(key@),
            r.channel_id() == final(self)@[key@],
            old(self)@.contains_key(key@) ==> final(self)@ == old(self)@,
            !old(self)@.contains_key(key@) ==> final(self)@ == old(self)@.insert(
                key@,
                r.channel_id(),
            ),
    {
        let tx = self.get_or_create(key);
        tx.subscribe()
    }

    /// Publishes one event to `key`'s channel if — and only if — the key is
    /// known, and reports whether it was; an unknown key is a quiet no-op,
    /// never an error and never a new entry. Delivery is non-blocking: a
    /// subscriber with a full buffer loses its oldest event instead of
    /// holding up the publisher.
    pub fn publish(&self, key: &str, event: ReplyData) -> (sent: bool)
        ensures
            sent == self@.contains_key(key@),
    {
        let owned = key.to_owned();
        match self.find(&owned) {
            Some(i) => {
                proof {
                    lemma_entries_map_index_weak(self.entries@, i as int);
                }
                let _ = self.entries[i].1.send(event);
                true
            },
            None => {
                proof {
                    lemma_entries_map_absent(self.entries@, key@);
                }
                false
            },
        }
    }

    /// Whether a channel exists for `key`.
    pub fn contains_key(&self, key: &str) -> (r: bool)
        ensures
            r == self@.contains_key(key@),
    {
        let owned = key.to_owned();
        match self.find(&owned) {
            Some(i) => {
                proof {
                    lemma_entries_map_index_weak(self.entries@, i as int);
                }
                true
            },
            None => {
                proof {
                    lemma_entries_map_absent(self.entries@, key@);
                }
                false
            },
        }
    }

    /// How many channels the registry holds.
    pub fn len(&self) -> (r: usize)
        requires
            self.wf(),
        ensures
            r == self@.dom().len(),
    {
        proof {
            lemma_entries_map_finite(self.entries@);
        }
        self.entries.len()
    }
}

/// The one process-wide broadcast channel for "new topic" events. It is
/// created once, lives for the process lifetime whatever the subscriber
/// count, and is independent of the per-topic registry.
pub struct TopicBroadcaster {
    tx: ChannelSender<TopicData>,
    anchor: ChannelReceiver<TopicData>,
}

impl TopicBroadcaster {
    /// The ghost identity of the one global channel.
    pub closed spec fn channel_id(&self) -> int {
        self.tx.channel_id()
    }

    pub fn new() -> (b: TopicBroadcaster) {
        let (tx, rx) = ChannelSender::<TopicData>::create(CHANNEL_CAPACITY, Ghost(0));
        TopicBroadcaster { tx, anchor: rx }
    }

    /// Publishes to the subscribers attached now; a no-op without an error
    /// if there are none.
    pub fn publish(&self, event: TopicData) -> (n: Option<usize>)
        ensures
            n matches Some(k) ==> k >= 1,
    {
        self.tx.send(event)
    }

    /// A new receiving end of the one global channel.
    pub fn subscribe(&self) -> (r: ChannelReceiver<TopicData>)
        ensures
            r.channel_id() == self.channel_id(),
    {
        self.tx.subscribe()
    }
}

} // verus!
