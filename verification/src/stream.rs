//! The event stream: a bounded producer/consumer notification channel.
//!
//! A builder produces a connected pair of a cloneable sender handle and a
//! single-consumer event stream over one bounded FIFO queue. Events are
//! delivered in the order they were successfully enqueued, across all sender
//! clones; the consumer side ends once every sender is gone and the buffer is
//! drained. The queue's capacity is the only backpressure mechanism. The
//! queueing itself is tokio's; this module states what its calls return and
//! keeps the surrounding decisions verified.

use vstd::prelude::*;

verus! {

#[verifier::external_type_specification]
#[verifier::external_body]
#[verifier::reject_recursive_types(T)]
pub struct ExSender<T>(tokio::sync::mpsc::Sender<T>);

#[verifier::external_type_specification]
#[verifier::external_body]
#[verifier::reject_recursive_types(T)]
pub struct ExReceiver<T>(tokio::sync::mpsc::Receiver<T>);

/// Why `try_send` did not enqueue; either way the caller gets the original
/// event back, for retry or inspection.
#[derive(Debug, PartialEq, Eq)]
pub enum TrySendFailure<T> {
    /// The channel was full: a transient failure.
    Full(T),
    /// The receiver is gone: a permanent failure.
    Closed(T),
}

impl<T> TrySendFailure<T> {
    /// The undelivered event.
    pub fn into_event(self) -> (r: T)
        ensures
            self matches TrySendFailure::Full(e) ==> r == e,
            self matches TrySendFailure::Closed(e) ==> r == e,
    {
        match self {
            TrySendFailure::Full(e) => e,
            TrySendFailure::Closed(e) => e,
        }
    }
}

/// Why `try_recv` returned no event.
#[derive(Debug, Clone, Copy, PartialEq, Eq, Structural)]
pub enum TryRecvFailure {
    /// No event is buffered right now, but senders remain: more may come.
    Empty,
    /// Every sender is gone and the buffer is drained: no event will come.
    Disconnected,
}

/// The largest buffer capacity a channel can be built with: tokio's
/// semaphore holds at most `usize::MAX >> 3` permits, which, `usize::MAX`
/// being all ones, equals this quotient.
pub const MAX_BUFFER_SIZE: usize = usize::MAX / 8;

/// Relies on tokio::sync::mpsc::channel: returns a connected sender/receiver
/// pair over one bounded queue of the given capacity. The call panics on a
/// zero capacity and on one above the semaphore's permit limit; the
/// precondition rules both out.
#[verifier::external_body]
fn mpsc_channel<T>(buffer: usize) -> (r: (
    tokio::sync::mpsc::Sender<T>,
    tokio::sync::mpsc::Receiver<T>,
))
    requires
        1 <= buffer <= MAX_BUFFER_SIZE,
{
    tokio::sync::mpsc::channel(buffer)
}

/// Relies on tokio's Sender::try_send: the event is either enqueued (and the
/// call returns nothing) or comes back unchanged inside the failure — Full
/// when no capacity remained, Closed when the receiver is gone.
#[verifier::external_body]
fn sender_try_send<T>(tx: &tokio::sync::mpsc::Sender<T>, event: T) -> (r: Result<
    (),
    TrySendFailure<T>,
>)
    ensures
        r matches Err(f) ==> f == TrySendFailure::Full(event) || f == TrySendFailure::Closed(
            event,
        ),
{
    match tx.try_send(event) {
        Ok(()) => Ok(()),
        Err(tokio::sync::mpsc::error::TrySendError::Full(e)) => Err(TrySendFailure::Full(e)),
        Err(tokio::sync::mpsc::error::TrySendError::Closed(e)) => Err(TrySendFailure::Closed(e)),
    }
}

/// Relies on tokio's Sender::is_closed: whether the receiver half is gone.
/// The observation can be stale the instant it is read, so nothing is claimed
/// of the result.
#[verifier::external_body]
fn sender_is_closed<T>(tx: &tokio::sync::mpsc::Sender<T>) -> bool {
    tx.is_closed()
}

/// Relies on tokio's Sender::capacity: the number of events that can be
/// enqueued right now. Advisory only; nothing is claimed of the result.
#[verifier::external_body]
fn sender_capacity<T>(tx: &tokio::sync::mpsc::Sender<T>) -> usize {
    tx.capacity()
}

/// Relies on tokio's Clone impl for Sender: the copy feeds the same queue as
/// the original, which no contract here can express.
#[verifier::external_body]
fn sender_clone<T>(tx: &tokio::sync::mpsc::Sender<T>) -> tokio::sync::mpsc::Sender<T> {
    tx.clone()
}

/// Relies on tokio's Receiver::try_recv: either the event that has waited
/// longest (enqueue order), or Empty while senders remain, or Disconnected
/// once every sender is gone and the buffer is drained.
#[verifier::external_body]
fn receiver_try_recv<T>(rx: &mut tokio::sync::mpsc::Receiver<T>) -> Result<T, TryRecvFailure> {
    match rx.try_recv() {
        Ok(event) => Ok(event),
        Err(tokio::sync::mpsc::error::TryRecvError::Empty) => Err(TryRecvFailure::Empty),
        Err(tokio::sync::mpsc::error::TryRecvError::Disconnected) => Err(
            TryRecvFailure::Disconnected,
        ),
    }
}

/// A sender for events.
///
/// Handles are independently cloneable; all clones feed the one bounded
/// queue, and interleaved sends are ordered by when each enqueue completed.
#[derive(Debug)]
#[verifier::reject_recursive_types(T)]
pub struct EventSender<T> {
    tx: tokio::sync::mpsc::Sender<T>,
}

impl<T> EventSender<T> {
    /// Create an event sender from a channel's sender half.
    pub fn new(tx: tokio::sync::mpsc::Sender<T>) -> (r: Self) {
        EventSender { tx }
    }

    /// The underlying channel sender. Its `send` suspends while the queue is
    /// full and fails only once the receiver is gone; awaiting it belongs to
    /// the embedding application.
    pub fn inner(&self) -> &tokio::sync::mpsc::Sender<T> {
        &self.tx
    }

    /// Try to send an event without waiting. Either the event is enqueued,
    /// or it comes back unchanged: `Full` when the queue had no room (try
    /// again later), `Closed` when the receiver is gone (permanent).
    pub fn try_send(&self, event: T) -> (r: Result<(), TrySendFailure<T>>)
        ensures
            r matches Err(f) ==> f == TrySendFailure::Full(event) || f == TrySendFailure::Closed(
                event,
            ),
    {
        sender_try_send(&self.tx, event)
    }

    /// Whether the receiver has been dropped. Not authoritative the instant
    /// it is read: the receiver can disappear right after.
    pub fn is_closed(&self) -> bool {
        sender_is_closed(&self.tx)
    }

    /// The remaining capacity of the channel; advisory only.
    pub fn capacity(&self) -> usize {
        sender_capacity(&self.tx)
    }
}

impl<T> Clone for EventSender<T> {
    /// A handle feeding the same queue.
    fn clone(&self) -> Self {
        EventSender { tx: sender_clone(&self.tx) }
    }
}

/// The consumer half of an event channel: a single-pass, finite-until-closed
/// sequence of events.
///
/// It yields events in enqueue order, never reorders and never drops: every
/// event enqueued before the senders closed is delivered, and the sequence
/// ends only after the last one.
#[derive(Debug)]
#[verifier::reject_recursive_types(T)]
pub struct EventStream<T> {
    rx: tokio::sync::mpsc::Receiver<T>,
}

impl<T> EventStream<T> {
    /// Create an event stream from a channel's receiver half.
    pub fn new(rx: tokio::sync::mpsc::Receiver<T>) -> (r: Self) {
        EventStream { rx }
    }

    /// Take an event without waiting: the event that has waited longest, or
    /// `Empty` while senders remain (more may come), or `Disconnected` once
    /// every sender is gone and the buffer is drained (none will come).
    pub fn try_recv(&mut self) -> (r: Result<T, TryRecvFailure>) {
        receiver_try_recv(&mut self.rx)
    }

    /// The underlying channel receiver; awaiting its `recv` belongs to the
    /// embedding application.
    pub fn into_inner(self) -> tokio::sync::mpsc::Receiver<T> {
        self.rx
    }
}

/// The buffer capacity a stream builder starts with.
pub const DEFAULT_BUFFER_SIZE: usize = 100;

/// Builder for creating event streams.
pub struct StreamBuilder<T> {
    buffer_size: usize,
    marker: core::marker::PhantomData<T>,
}

impl<T> StreamBuilder<T> {
    /// The configured buffer capacity.
    pub closed spec fn spec_buffer_size(&self) -> usize {
        self.buffer_size
    }

    /// Create a stream builder with the default buffer capacity.
    pub fn new() -> (r: Self)
        ensures
            r.spec_buffer_size() == DEFAULT_BUFFER_SIZE,
    {
        StreamBuilder { buffer_size: DEFAULT_BUFFER_SIZE, marker: core::marker::PhantomData }
    }

    /// Set the buffer capacity of the underlying channel. It must be left
    /// positive, and at most `MAX_BUFFER_SIZE`, for the builder to build.
    pub fn buffer_size(self, size: usize) -> (r: Self)
        ensures
            r.spec_buffer_size() == size,
    {
        StreamBuilder { buffer_size: size, ..self }
    }

    /// Build the connected pair of sender and stream.
    pub fn build(self) -> (r: (EventSender<T>, EventStream<T>))
        requires
            1 <= self.spec_buffer_size() <= MAX_BUFFER_SIZE,
    {
        let (tx, rx) = mpsc_channel(self.buffer_size);
        (EventSender::new(tx), EventStream::new(rx))
    }
}

impl<T> Default for StreamBuilder<T> {
    /// A builder with the default buffer capacity.
    fn default() -> (r: Self)
        ensures
            r.spec_buffer_size() == DEFAULT_BUFFER_SIZE,
    {
        StreamBuilder::new()
    }
}

/// Create an event stream with the default buffer capacity.
pub fn create_stream<T>() -> (r: (EventSender<T>, EventStream<T>)) {
    StreamBuilder::new().build()
}

/// Create an event stream with the given buffer capacity, which must be
/// positive and at most `MAX_BUFFER_SIZE`.
pub fn create_stream_with_buffer<T>(buffer_size: usize) -> (r: (EventSender<T>, EventStream<T>))
    requires
        1 <= buffer_size <= MAX_BUFFER_SIZE,
{
    StreamBuilder::new().buffer_size(buffer_size).build()
}

} // verus!
