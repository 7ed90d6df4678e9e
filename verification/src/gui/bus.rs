//! Outward event streams: one producer, any number of subscribers.

use async_event_streams::{EventBox, EventStream, EventStreams, SentEvent};
use std::sync::Arc;
use vstd::prelude::*;

verus! {

/// The producer side of `async_event_streams`: the set of subscriber queues
/// that one producer feeds. Nothing inside it is visible here.
#[verifier::external_type_specification]
#[verifier::external_body]
#[verifier::reject_recursive_types(EVT)]
pub struct ExEventStreams<EVT: Send + Sync + 'static>(EventStreams<EVT>);

/// One subscriber's end of an `EventStreams`.
#[verifier::external_type_specification]
#[verifier::external_body]
#[verifier::reject_recursive_types(EVT)]
pub struct ExEventStream<EVT: Send + Sync + 'static>(EventStream<EVT>);

/// The future that `EventStreams::send_event` returns. It is ready once
/// every subscriber has let go of the event.
#[verifier::external_type_specification]
#[verifier::external_body]
pub struct ExSentEvent(SentEvent);

/// The occurrence that caused another one, as `async_event_streams` hands it
/// from stream to stream.
#[verifier::external_type_specification]
#[verifier::external_body]
pub struct ExEventBox(EventBox);

/// Calls `EventStreams::new`, which makes a producer without subscribers.
/// Nothing is assumed of the result.
#[verifier::external_body]
fn streams_new<T: Send + Sync + 'static>() -> EventStreams<T> {
    EventStreams::new()
}

/// Calls `EventStreams::send_event`, which appends the event, with its
/// source, to the queue of every live subscriber and returns the future to
/// await. Nothing is assumed of the result. The call panics only if the lock
/// inside the producer was poisoned by a panic in another thread.
#[verifier::external_body]
fn streams_send<T: Send + Sync + 'static>(
    streams: &EventStreams<T>,
    event: T,
    source: Option<Arc<EventBox>>,
) -> SentEvent {
    streams.send_event(event, source)
}

/// Calls `EventStreams::post_event`, which appends the event, with its
/// source, to the queue of every live subscriber. Nothing is assumed of the
/// call. It panics only if the lock inside the producer was poisoned.
#[verifier::external_body]
fn streams_post<T: Send + Sync + 'static>(
    streams: &EventStreams<T>,
    event: T,
    source: Option<Arc<EventBox>>,
) {
    streams.post_event(event, source)
}

/// Calls `EventStreams::clear`, which empties the queue of every live
/// subscriber. Nothing is assumed of the call. It panics only if the lock
/// inside the producer was poisoned.
#[verifier::external_body]
fn streams_clear<T: Send + Sync + 'static>(streams: &EventStreams<T>) {
    streams.clear()
}

/// Calls `EventStreams::create_event_stream`, which registers a new
/// subscriber with an empty queue. Nothing is assumed of the result. The
/// call panics only if the lock inside the producer was poisoned.
#[verifier::external_body]
fn streams_subscribe<T: Send + Sync + 'static>(streams: &EventStreams<T>) -> EventStream<T> {
    streams.create_event_stream()
}

/// Calls `Arc::clone`, which makes another pointer to the same occurrence
/// and so yields a value equal to the one it was called on.
#[verifier::external_body]
fn occurrence_share(occurrence: &Arc<EventBox>) -> (shared: Arc<EventBox>)
    ensures
        shared == *occurrence,
{
    Arc::clone(occurrence)
}

/// The provenance of an occurrence: the occurrence that caused it, if any.
/// It is passed along with every event that the occurrence gives rise to.
pub type Provenance = Option<Arc<EventBox>>;

/// The same provenance once more, to go with another event.
pub fn share(source: &Provenance) -> (shared: Provenance)
    ensures
        shared == *source,
{
    match source {
        Some(occurrence) => Some(occurrence_share(occurrence)),
        None => None,
    }
}

/// That `streams` was called to send `event` with `source`, and the call
/// gave `handle`.
pub closed spec fn gave_handle<T: Send + Sync + 'static>(
    streams: EventStreams<T>,
    event: T,
    source: Provenance,
    handle: SentEvent,
) -> bool {
    streams_send::<T>.ensures((&streams, event, source), handle)
}

/// That `streams` was called to post `event` with `source`.
pub closed spec fn took_post<T: Send + Sync + 'static>(
    streams: EventStreams<T>,
    event: T,
    source: Provenance,
) -> bool {
    streams_post::<T>.ensures((&streams, event, source), ())
}

/// That `streams` was called to clear its subscribers' queues.
pub closed spec fn took_clear<T: Send + Sync + 'static>(streams: EventStreams<T>) -> bool {
    streams_clear::<T>.ensures((&streams,), ())
}

/// That `streams` was called to register a subscriber, and the call gave
/// `stream`.
pub closed spec fn gave_stream<T: Send + Sync + 'static>(
    streams: EventStreams<T>,
    stream: EventStream<T>,
) -> bool {
    streams_subscribe::<T>.ensures((&streams,), stream)
}

/// An outward stream of events of one type, together with the record of what
/// its owner has put on it.
///
/// A subscriber receives, in order, the events put on the bus after it
/// subscribed, except those that a [`Bus::clear`] discarded before it read
/// them. [`Bus::queued`] is the owner's side of that: the events put on the
/// bus since it was made or last cleared, each with the provenance it was
/// put on with, oldest first. It is what waits for a subscriber that was
/// there all along and has read nothing since.
///
/// The record is the library's own. What ties it to the producer are the
/// four predicates [`Bus::sent`], [`Bus::posted`], [`Bus::cleared`] and
/// [`Bus::subscribed`]: each says that one call was made on the producer of
/// this bus, with what and with what result, and no more than that. A bus
/// keeps its producer for life, so what was once called on it stays so.
#[verifier::reject_recursive_types(T)]
pub struct Bus<T: Send + Sync + 'static> {
    streams: EventStreams<T>,
    queued: Ghost<Seq<(T, Provenance)>>,
}

impl<T: Send + Sync + 'static> Bus<T> {
    /// The events put on the bus since it was made or last cleared, each
    /// with its provenance.
    pub closed spec fn queued(&self) -> Seq<(T, Provenance)> {
        self.queued@
    }

    /// The producer that this bus puts its events on.
    pub closed spec fn producer(&self) -> EventStreams<T> {
        self.streams
    }

    /// That the producer of this bus was called to send `event` with
    /// `source`, and the call gave `handle`.
    pub open spec fn sent(&self, event: T, source: Provenance, handle: SentEvent) -> bool {
        gave_handle(self.producer(), event, source, handle)
    }

    /// That the producer of this bus was called to post `event` with
    /// `source`.
    pub open spec fn posted(&self, event: T, source: Provenance) -> bool {
        took_post(self.producer(), event, source)
    }

    /// That the producer of this bus was called to clear its subscribers'
    /// queues.
    pub open spec fn cleared(&self) -> bool {
        took_clear(self.producer())
    }

    /// That the producer of this bus was called to register a subscriber,
    /// and the call gave `stream`.
    pub open spec fn subscribed(&self, stream: EventStream<T>) -> bool {
        gave_stream(self.producer(), stream)
    }

    /// A bus on which nothing has been put.
    pub fn new() -> (bus: Self)
        ensures
            bus.queued() == Seq::<(T, Provenance)>::empty(),
    {
        Bus { streams: streams_new(), queued: Ghost(Seq::empty()) }
    }

    /// Puts `event` on the bus with its provenance and returns the handle to
    /// await: it is ready once every subscriber is done with the event.
    pub fn send(&mut self, event: T, source: Provenance) -> (handle: SentEvent)
        ensures
            final(self).queued() == old(self).queued().push((event, source)),
            final(self).sent(event, source, handle),
            final(self).producer() == old(self).producer(),
    {
        let ghost record = self.queued@.push((event, source));
        let handle = streams_send(&self.streams, event, source);
        self.queued = Ghost(record);
        handle
    }

    /// Puts `event` on the bus with its provenance, without a handle to
    /// await.
    pub fn post(&mut self, event: T, source: Provenance)
        ensures
            final(self).queued() == old(self).queued().push((event, source)),
            final(self).posted(event, source),
            final(self).producer() == old(self).producer(),
    {
        let ghost record = self.queued@.push((event, source));
        streams_post(&self.streams, event, source);
        self.queued = Ghost(record);
    }

    /// Discards what subscribers have not read yet.
    pub fn clear(&mut self)
        ensures
            final(self).queued() == Seq::<(T, Provenance)>::empty(),
            final(self).cleared(),
            final(self).producer() == old(self).producer(),
    {
        streams_clear(&self.streams);
        self.queued = Ghost(Seq::empty());
    }

    /// Registers a new subscriber with this bus and returns its stream.
    /// Nothing that was put on the bus before is replayed to it.
    pub fn subscribe(&self) -> (stream: EventStream<T>)
        ensures
            self.subscribed(stream),
    {
        streams_subscribe(&self.streams)
    }
}

} // verus!
