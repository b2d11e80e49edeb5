use vstd::prelude::*;
use std::sync::Arc;
use std::sync::atomic::{AtomicU64, Ordering};
use crossbeam_channel::Sender as QueueIn;
use crossbeam_channel::Receiver as QueueOut;
use crate::message::{Message, now_millis, tagged};

verus! {

#[verifier::external_type_specification]
#[verifier::external_body]
#[verifier::reject_recursive_types(T)]
pub struct ExQueueIn<T>(QueueIn<T>);

#[verifier::external_type_specification]
#[verifier::external_body]
#[verifier::reject_recursive_types(T)]
pub struct ExQueueOut<T>(QueueOut<T>);

/// Relies on `crossbeam_channel::unbounded`: a fresh unbounded FIFO, as a
/// sending and a receiving handle. The third part is a ghost name for that
/// FIFO; nothing is known of its value, so two calls give names that no
/// proof can take to be equal.
#[verifier::external_body]
fn queue_unbounded<T>() -> (r: (QueueIn<T>, QueueOut<T>, Ghost<int>)) {
    let (s, q) = crossbeam_channel::unbounded();
    (s, q, Ghost(vstd::pervasive::arbitrary()))
}

/// Relies on `crossbeam_channel::Sender::send`: on failure (every receiver
/// is gone) the message comes back unchanged.
#[verifier::external_body]
fn queue_send<T>(q: &QueueIn<T>, m: T) -> (r: Result<(), T>)
    ensures
        r matches Err(back) ==> back == m,
{
    q.send(m).map_err(|e| e.0)
}

/// Relies on `crossbeam_channel::Receiver::recv`: the next message, or
/// nothing once the queue is empty and every sender is gone.
#[verifier::external_body]
fn queue_recv<T>(q: &QueueOut<T>) -> (r: Option<T>) {
    q.recv().ok()
}

/// Relies on `crossbeam_channel::Sender::clone`: another handle on the same queue.
#[verifier::external_body]
fn queue_in_clone<T>(q: &QueueIn<T>) -> (r: QueueIn<T>) {
    q.clone()
}

/// Relies on `crossbeam_channel::Receiver::clone`: another handle on the same queue.
#[verifier::external_body]
fn queue_out_clone<T>(q: &QueueOut<T>) -> (r: QueueOut<T>) {
    q.clone()
}

/// Relies on `crossbeam_channel::Sender::len`: the number of queued messages.
#[verifier::external_body]
fn queue_in_len<T>(q: &QueueIn<T>) -> (r: usize) {
    q.len()
}

/// Relies on `crossbeam_channel::Receiver::len`: the number of queued messages.
#[verifier::external_body]
fn queue_out_len<T>(q: &QueueOut<T>) -> (r: usize) {
    q.len()
}

/// Relies on `crossbeam_channel::Sender::capacity`, which is `None` for a
/// queue made by `unbounded`: every `Sender` holds such a queue, since
/// `named_channel` and `clone` are its only constructors.
#[verifier::external_body]
fn sender_capacity<T>(s: &Sender<T>) -> (r: Option<usize>)
    ensures
        r is None,
{
    s.inner.capacity()
}

/// Relies on `crossbeam_channel::Receiver::capacity`, which is `None` for a
/// queue made by `unbounded`: every `Receiver` holds such a queue, since
/// `named_channel` and `clone` are its only constructors.
#[verifier::external_body]
fn receiver_capacity<T>(q: &Receiver<T>) -> (r: Option<usize>)
    ensures
        r is None,
{
    q.inner.capacity()
}

/// A send failed because every receiver of the channel is gone; the message
/// that could not be delivered comes back.
#[derive(Debug)]
pub struct ChannelClosed<T>(pub Message<T>);

/// Every sender of the channel is gone and nothing is left in it.
#[derive(Debug, PartialEq, Eq, Structural)]
pub struct EndOfStream;

/// The sending end of a channel of messages. Clones share the channel, the
/// source tag and the record of the last send.
#[verifier::reject_recursive_types(T)]
pub struct Sender<T> {
    inner: QueueIn<Message<T>>,
    source_id: Option<String>,
    last_send_time: Arc<AtomicU64>,
    channel: Ghost<int>,
}

/// The receiving end of a channel of messages. Clones share the channel and
/// the record of the last receive.
#[verifier::reject_recursive_types(T)]
pub struct Receiver<T> {
    inner: QueueOut<Message<T>>,
    last_receive_time: Arc<AtomicU64>,
    channel: Ghost<int>,
}

impl<T> Sender<T> {
    /// The channel this handle sends into.
    pub closed spec fn channel_id(&self) -> int {
        self.channel@
    }

    /// The tag stamped on untagged outgoing messages.
    pub closed spec fn source_tag(&self) -> Option<String> {
        self.source_id
    }

    /// The message this sender puts on the queue for `value`: `value`,
    /// tagged with this sender's source tag when it has none.
    pub fn outgoing(&self, value: Message<T>) -> (r: Message<T>)
        ensures
            r == tagged(value, self.source_tag()),
    {
        match &self.source_id {
            Some(id) => {
                if value.source_id.is_none() {
                    value.with_source(id.clone())
                } else {
                    value
                }
            },
            None => value,
        }
    }

    /// Puts `self.outgoing(value)` on the queue. Fails, handing that message
    /// back, when every receiver is gone.
    pub fn send(&self, value: Message<T>) -> (r: Result<(), ChannelClosed<T>>)
        ensures
            r matches Err(ChannelClosed(back)) ==> back == tagged(value, self.source_tag()),
    {
        let msg = self.outgoing(value);
        match queue_send(&self.inner, msg) {
            Ok(()) => {
                let now = now_millis();
                self.last_send_time.store(now, Ordering::Relaxed);
                Ok(())
            },
            Err(back) => Err(ChannelClosed(back)),
        }
    }

    /// Puts `self.outgoing(Message::with_event_time(value, event_time))` on
    /// the queue. Fails, handing that message back, when every receiver is gone.
    pub fn send_with_time(&self, value: T, event_time: u64) -> (r: Result<(), ChannelClosed<T>>)
        ensures
            r matches Err(ChannelClosed(back)) ==> {
                &&& back.payload == value
                &&& back.event_timestamp == event_time
                &&& back.source_id == self.source_tag()
            },
    {
        let msg = self.outgoing(Message::with_event_time(value, event_time));
        match queue_send(&self.inner, msg) {
            Ok(()) => {
                self.last_send_time.store(event_time, Ordering::Relaxed);
                Ok(())
            },
            Err(back) => Err(ChannelClosed(back)),
        }
    }

    /// The number of messages waiting in the channel.
    pub fn len(&self) -> (r: usize) {
        queue_in_len(&self.inner)
    }

    /// The bound of the channel: `None`, as every channel of the library
    /// is unbounded.
    pub fn capacity(&self) -> (r: Option<usize>)
        ensures
            r is None,
    {
        sender_capacity(self)
    }

    /// The time of the last successful send through any clone of this sender.
    pub fn last_send_time(&self) -> (r: u64) {
        self.last_send_time.load(Ordering::Relaxed)
    }
}

impl<T> Clone for Sender<T> {
    fn clone(&self) -> (r: Self)
        ensures
            r.channel_id() == self.channel_id(),
            r.source_tag() == self.source_tag(),
    {
        Sender {
            inner: queue_in_clone(&self.inner),
            source_id: self.source_id.clone(),
            last_send_time: self.last_send_time.clone(),
            channel: self.channel,
        }
    }
}

impl<T> Receiver<T> {
    /// The channel this handle receives from.
    pub closed spec fn channel_id(&self) -> int {
        self.channel@
    }

    /// Waits for the next message; `EndOfStream` once every sender is gone
    /// and the channel is drained.
    pub fn recv(&self) -> (r: Result<Message<T>, EndOfStream>) {
        match queue_recv(&self.inner) {
            Some(msg) => {
                let now = now_millis();
                self.last_receive_time.store(now, Ordering::Relaxed);
                Ok(msg)
            },
            None => Err(EndOfStream),
        }
    }

    /// The number of messages waiting in the channel.
    pub fn len(&self) -> (r: usize) {
        queue_out_len(&self.inner)
    }

    /// The bound of the channel: `None`, as every channel of the library
    /// is unbounded.
    pub fn capacity(&self) -> (r: Option<usize>)
        ensures
            r is None,
    {
        receiver_capacity(self)
    }

    /// The time of the last successful receive through any clone of this receiver.
    pub fn last_receive_time(&self) -> (r: u64) {
        self.last_receive_time.load(Ordering::Relaxed)
    }
}

impl<T> Clone for Receiver<T> {
    fn clone(&self) -> (r: Self)
        ensures
            r.channel_id() == self.channel_id(),
    {
        Receiver {
            inner: queue_out_clone(&self.inner),
            last_receive_time: self.last_receive_time.clone(),
            channel: self.channel,
        }
    }
}

/// A fresh unbounded channel whose sender stamps `source_id` on untagged
/// messages; both handles carry the ghost name of the one queue they share.
pub(crate) fn named_channel<T>(source_id: Option<String>) -> (r: (Sender<T>, Receiver<T>))
    ensures
        r.0.channel_id() == r.1.channel_id(),
        r.0.source_tag() == source_id,
{
    let (s, q, id) = queue_unbounded();
    (
        Sender {
            inner: s,
            source_id,
            last_send_time: Arc::new(AtomicU64::new(0)),
            channel: id,
        },
        Receiver { inner: q, last_receive_time: Arc::new(AtomicU64::new(0)), channel: id },
    )
}

/// A fresh unbounded channel: its sender and its receiver, on one queue.
pub fn channel<T>() -> (r: (Sender<T>, Receiver<T>))
    ensures
        r.0.channel_id() == r.1.channel_id(),
        r.0.source_tag().is_none(),
{
    named_channel(None)
}

/// A fresh unbounded channel whose sender stamps `source_id` on every
/// outgoing message that has no tag yet.
pub fn with_source<T>(source_id: String) -> (r: (Sender<T>, Receiver<T>))
    ensures
        r.0.channel_id() == r.1.channel_id(),
        r.0.source_tag() == Some(source_id),
{
    named_channel(Some(source_id))
}

} // verus!
