//! Bounded FIFO event queues, backed by `embassy_sync`'s channel.
//!
//! Two flavors exist, as the concurrency model demands: the cross-core
//! queue is guarded by a real critical section because its producer and
//! consumer run truly concurrently on different cores; the intra-core
//! queues use a no-op lock, valid only under a cooperative scheduler where
//! one task runs at a time. Both hold up to [`MIDI_CHANNEL_SIZE`] events.

use vstd::prelude::*;

use crate::config::MIDI_CHANNEL_SIZE;
use crate::midi::MidiMsg;

verus! {

/// The events a cross-core queue holds, oldest first.
pub uninterp spec fn cross_queue_contents(q: CrossCoreQueue) -> Seq<MidiMsg>;

/// The events an intra-core queue holds, oldest first.
pub uninterp spec fn local_queue_contents(q: LocalQueue) -> Seq<MidiMsg>;

/// The queue that moves events from the sensing core to the output core.
/// Every access goes through a critical section. The channel inside is
/// opaque; the wrappers below state what its operations do.
#[verifier::external_body]
pub struct CrossCoreQueue {
    ch: embassy_sync::channel::Channel<
        embassy_sync::blocking_mutex::raw::CriticalSectionRawMutex,
        MidiMsg,
        16,
    >,
}

impl CrossCoreQueue {
    /// Relies on embassy_sync::channel::Channel::new: a fresh channel holds
    /// nothing.
    #[verifier::external_body]
    pub fn new() -> (q: Self)
        ensures
            cross_queue_contents(q) == Seq::<MidiMsg>::empty(),
    {
        CrossCoreQueue { ch: embassy_sync::channel::Channel::new() }
    }

    /// Relies on embassy_sync::channel::Channel::try_send: the message is
    /// appended exactly when the queue holds fewer events than its capacity,
    /// and a full queue returns an error immediately, leaving the queue
    /// unchanged.
    #[verifier::external_body]
    pub fn try_send(&mut self, msg: MidiMsg) -> (ok: bool)
        ensures
            ok <==> cross_queue_contents(*old(self)).len() < MIDI_CHANNEL_SIZE,
            ok ==> cross_queue_contents(*final(self))
                == cross_queue_contents(*old(self)).push(msg),
            !ok ==> cross_queue_contents(*final(self)) == cross_queue_contents(*old(self)),
    {
        self.ch.try_send(msg).is_ok()
    }

    /// Relies on embassy_sync::channel::Channel::try_receive: the oldest
    /// message is removed and returned exactly when the queue is non-empty.
    #[verifier::external_body]
    pub fn try_receive(&mut self) -> (r: Option<MidiMsg>)
        ensures
            cross_queue_contents(*old(self)).len() > 0 ==> {
                &&& r == Some(cross_queue_contents(*old(self))[0])
                &&& cross_queue_contents(*final(self))
                    == cross_queue_contents(*old(self)).drop_first()
            },
            cross_queue_contents(*old(self)).len() == 0 ==> {
                &&& r is None
                &&& cross_queue_contents(*final(self)) == cross_queue_contents(*old(self))
            },
    {
        self.ch.try_receive().ok()
    }

    /// Relies on embassy_sync::channel::Channel::len: the number of events
    /// currently queued.
    #[verifier::external_body]
    pub fn len(&self) -> (n: usize)
        ensures
            n == cross_queue_contents(*self).len(),
    {
        self.ch.len()
    }
}

/// A per-transport queue on the output core. Producer and consumer are
/// tasks of one cooperative scheduler, so a no-op lock suffices. The
/// channel inside is opaque; the wrappers below state what its operations
/// do.
#[verifier::external_body]
pub struct LocalQueue {
    ch: embassy_sync::channel::Channel<
        embassy_sync::blocking_mutex::raw::NoopRawMutex,
        MidiMsg,
        16,
    >,
}

impl LocalQueue {
    /// Relies on embassy_sync::channel::Channel::new: a fresh channel holds
    /// nothing.
    #[verifier::external_body]
    pub fn new() -> (q: Self)
        ensures
            local_queue_contents(q) == Seq::<MidiMsg>::empty(),
    {
        LocalQueue { ch: embassy_sync::channel::Channel::new() }
    }

    /// Relies on embassy_sync::channel::Channel::try_send: the message is
    /// appended exactly when the queue holds fewer events than its capacity,
    /// and a full queue returns an error immediately, leaving the queue
    /// unchanged.
    #[verifier::external_body]
    pub fn try_send(&mut self, msg: MidiMsg) -> (ok: bool)
        ensures
            ok <==> local_queue_contents(*old(self)).len() < MIDI_CHANNEL_SIZE,
            ok ==> local_queue_contents(*final(self))
                == local_queue_contents(*old(self)).push(msg),
            !ok ==> local_queue_contents(*final(self)) == local_queue_contents(*old(self)),
    {
        self.ch.try_send(msg).is_ok()
    }

    /// Relies on embassy_sync::channel::Channel::try_receive: the oldest
    /// message is removed and returned exactly when the queue is non-empty.
    #[verifier::external_body]
    pub fn try_receive(&mut self) -> (r: Option<MidiMsg>)
        ensures
            local_queue_contents(*old(self)).len() > 0 ==> {
                &&& r == Some(local_queue_contents(*old(self))[0])
                &&& local_queue_contents(*final(self))
                    == local_queue_contents(*old(self)).drop_first()
            },
            local_queue_contents(*old(self)).len() == 0 ==> {
                &&& r is None
                &&& local_queue_contents(*final(self)) == local_queue_contents(*old(self))
            },
    {
        self.ch.try_receive().ok()
    }

    /// Relies on embassy_sync::channel::Channel::len: the number of events
    /// currently queued.
    #[verifier::external_body]
    pub fn len(&self) -> (n: usize)
        ensures
            n == local_queue_contents(*self).len(),
    {
        self.ch.len()
    }
}

} // verus!
