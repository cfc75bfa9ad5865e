//! Typed endpoints of a broadcast channel, over tokio's `sync::broadcast`.
//!
//! A channel is opaque to the verifier, so each endpoint carries a ghost
//! channel identity. The identity follows real connectivity: the two ends of
//! a fresh channel share it, and `duplicate` and `subscribe` pass it on to
//! the new endpoint of the same channel. Two endpoints with equal
//! `channel_id` are therefore ends of one channel.

use vstd::prelude::*;

use tokio::sync::broadcast;
use tokio::sync::broadcast::error::TryRecvError;

verus! {

#[verifier::external_type_specification]
#[verifier::external_body]
#[verifier::reject_recursive_types(T)]
pub struct ExBroadcastSender<T>(broadcast::Sender<T>);

#[verifier::external_type_specification]
#[verifier::external_body]
#[verifier::reject_recursive_types(T)]
pub struct ExBroadcastReceiver<T>(broadcast::Receiver<T>);

/// What one attempt to take the next event yields.
pub enum TryRecv<T> {
    /// The next event, in publish order.
    Event(T),
    /// Nothing buffered now; senders are still alive.
    Empty,
    /// This receiver fell behind and the given number of events were
    /// overwritten before it read them.
    Lagged(u64),
    /// Every sending end is gone; no further event will come.
    Closed,
}

/// Relies on tokio's `broadcast::channel`: a fresh channel of the given
/// buffer capacity, returning its sending and receiving ends. It panics
/// only on a zero capacity or one above half the address space, which the
/// requires rules out.
#[verifier::external_body]
fn raw_channel<T: Clone>(capacity: usize) -> (broadcast::Sender<T>, broadcast::Receiver<T>)
    requires
        1 <= capacity <= usize::MAX / 2,
{
    broadcast::channel(capacity)
}

/// Relies on tokio's `Clone` impl for `Sender`: another sending handle to
/// the same channel.
#[verifier::external_body]
fn raw_clone<T>(tx: &broadcast::Sender<T>) -> broadcast::Sender<T> {
    tx.clone()
}

/// Relies on tokio's `Sender::subscribe`: a new, independent receiving end
/// of the same channel.
#[verifier::external_body]
fn raw_subscribe<T>(tx: &broadcast::Sender<T>) -> broadcast::Receiver<T> {
    tx.subscribe()
}

/// Relies on tokio's `Sender::send`: the event reaches the receivers
/// attached at the instant of the call, without blocking, and their number
/// (positive) comes back; with no receivers the event is dropped and the
/// result is None. A full receiver buffer costs that receiver its oldest
/// event, never the publisher its progress.
#[verifier::external_body]
fn raw_send<T>(tx: &broadcast::Sender<T>, value: T) -> (r: Option<usize>)
    ensures
        r matches Some(n) ==> n >= 1,
{
    tx.send(value).ok()
}

/// Relies on tokio's `Receiver::try_recv`, telling its cases apart one for
/// one.
#[verifier::external_body]
fn raw_try_recv<T: Clone>(rx: &mut broadcast::Receiver<T>) -> (r: TryRecv<T>) {
    match rx.try_recv() {
        Ok(v) => TryRecv::Event(v),
        Err(TryRecvError::Empty) => TryRecv::Empty,
        Err(TryRecvError::Closed) => TryRecv::Closed,
        Err(TryRecvError::Lagged(n)) => TryRecv::Lagged(n),
    }
}

/// A sending end of a broadcast channel, tagged with the channel's ghost
/// identity.
#[verifier::reject_recursive_types(T)]
pub struct ChannelSender<T> {
    tx: broadcast::Sender<T>,
    chan: Ghost<int>,
}

/// A receiving end of a broadcast channel, tagged with the channel's ghost
/// identity.
#[verifier::reject_recursive_types(T)]
pub struct ChannelReceiver<T> {
    rx: broadcast::Receiver<T>,
    chan: Ghost<int>,
}

impl<T: Clone> ChannelSender<T> {
    /// The ghost identity of the channel this handle sends into.
    pub closed spec fn channel_id(&self) -> int {
        self.chan@
    }

    /// Opens a fresh channel under the given ghost identity and returns its
    /// two ends.
    pub(crate) fn create(capacity: usize, id: Ghost<int>) -> (p: (
        ChannelSender<T>,
        ChannelReceiver<T>,
    ))
        requires
            1 <= capacity <= usize::MAX / 2,
        ensures
            p.0.channel_id() == id@,
            p.1.channel_id() == id@,
    {
        let (tx, rx) = raw_channel(capacity);
        (ChannelSender { tx, chan: Ghost(id@) }, ChannelReceiver { rx, chan: Ghost(id@) })
    }

    /// Another sending handle to the same channel.
    pub fn duplicate(&self) -> (s: ChannelSender<T>)
        ensures
            s.channel_id() == self.channel_id(),
    {
        ChannelSender { tx: raw_clone(&self.tx), chan: Ghost(self.chan@) }
    }

    /// A new receiving end of the same channel. It sees the events published
    /// after this call, not before.
    pub fn subscribe(&self) -> (r: ChannelReceiver<T>)
        ensures
            r.channel_id() == self.channel_id(),
    {
        ChannelReceiver { rx: raw_subscribe(&self.tx), chan: Ghost(self.chan@) }
    }

    /// Publishes one event to the subscribers attached now; with none, the
    /// event is dropped and None comes back. Never an error, never blocking.
    pub fn send(&self, value: T) -> (n: Option<usize>)
        ensures
            n matches Some(k) ==> k >= 1,
    {
        raw_send(&self.tx, value)
    }
}

impl<T: Clone> ChannelReceiver<T> {
    /// The ghost identity of the channel this end receives from.
    pub closed spec fn channel_id(&self) -> int {
        self.chan@
    }

    /// Takes the next buffered event, without waiting.
    pub fn try_next(&mut self) -> (r: TryRecv<T>)
        ensures
            final(self).channel_id() == old(self).channel_id(),
    {
        raw_try_recv(&mut self.rx)
    }

    /// Hands the raw receiving end to the surrounding application, for the
    /// transports that must await it.
    pub fn into_raw(self) -> broadcast::Receiver<T> {
        self.rx
    }
}

} // verus!
