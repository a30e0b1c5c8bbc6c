//! Event routing between the cores, with the class-dependent backpressure
//! policy.
//!
//! Dropping a note-on under load only mutes a key until its next
//! re-evaluation; dropping a note-off would leave a note stuck forever. So,
//! on every queue an event crosses — the cross-core queue and each
//! per-transport queue — a note-on is offered once and silently dropped when
//! the queue is full, while a note-off must be offered again until the queue
//! accepts it.

use vstd::prelude::*;

use crate::config::MIDI_CHANNEL_SIZE;
use crate::midi::MidiMsg;
use crate::queue::{cross_queue_contents, local_queue_contents, CrossCoreQueue, LocalQueue};

verus! {

/// One attempt to hand `msg` to the cross-core queue under the asymmetric
/// backpressure policy. Returns whether the caller is done with the event:
/// a queued event is done; on a full queue a note-on is dropped (done, fail
/// open) while a note-off is not done and must be offered again once space
/// frees.
pub fn try_emit(q: &mut CrossCoreQueue, msg: MidiMsg) -> (done: bool)
    ensures
        cross_queue_contents(*old(q)).len() < MIDI_CHANNEL_SIZE ==> {
            &&& done
            &&& cross_queue_contents(*final(q)) == cross_queue_contents(*old(q)).push(msg)
        },
        cross_queue_contents(*old(q)).len() >= MIDI_CHANNEL_SIZE ==> {
            &&& cross_queue_contents(*final(q)) == cross_queue_contents(*old(q))
            &&& done <==> msg is NoteOn
        },
{
    let ok = q.try_send(msg);
    if ok {
        true
    } else {
        match msg {
            MidiMsg::NoteOn { .. } => true,
            MidiMsg::NoteOff { .. } => false,
        }
    }
}

/// One attempt to hand `msg` to a per-transport queue, under the same
/// policy as [`try_emit`]: a queued event is done; on a full queue a
/// note-on is dropped while a note-off is not done and must be offered
/// again once the transport drains.
pub fn try_emit_local(q: &mut LocalQueue, msg: MidiMsg) -> (done: bool)
    ensures
        local_queue_contents(*old(q)).len() < MIDI_CHANNEL_SIZE ==> {
            &&& done
            &&& local_queue_contents(*final(q)) == local_queue_contents(*old(q)).push(msg)
        },
        local_queue_contents(*old(q)).len() >= MIDI_CHANNEL_SIZE ==> {
            &&& local_queue_contents(*final(q)) == local_queue_contents(*old(q))
            &&& done <==> msg is NoteOn
        },
{
    let ok = q.try_send(msg);
    if ok {
        true
    } else {
        match msg {
            MidiMsg::NoteOn { .. } => true,
            MidiMsg::NoteOff { .. } => false,
        }
    }
}

/// Forward one event from the cross-core queue toward both per-transport
/// queues, each under the class-dependent backpressure policy: a transport
/// with space gets its copy; on a full transport queue a note-on's copy is
/// dropped, while a note-off is reported not done for that transport and
/// the caller must offer it there again once space frees. Neither transport
/// ever blocks the other.
pub fn route_event(serial_q: &mut LocalQueue, usb_q: &mut LocalQueue, msg: MidiMsg)
    -> (done: (bool, bool))
    ensures
        local_queue_contents(*old(serial_q)).len() < MIDI_CHANNEL_SIZE ==> {
            &&& done.0
            &&& local_queue_contents(*final(serial_q))
                == local_queue_contents(*old(serial_q)).push(msg)
        },
        local_queue_contents(*old(serial_q)).len() >= MIDI_CHANNEL_SIZE ==> {
            &&& local_queue_contents(*final(serial_q)) == local_queue_contents(*old(serial_q))
            &&& done.0 <==> msg is NoteOn
        },
        local_queue_contents(*old(usb_q)).len() < MIDI_CHANNEL_SIZE ==> {
            &&& done.1
            &&& local_queue_contents(*final(usb_q))
                == local_queue_contents(*old(usb_q)).push(msg)
        },
        local_queue_contents(*old(usb_q)).len() >= MIDI_CHANNEL_SIZE ==> {
            &&& local_queue_contents(*final(usb_q)) == local_queue_contents(*old(usb_q))
            &&& done.1 <==> msg is NoteOn
        },
{
    let serial_done = try_emit_local(serial_q, msg);
    let usb_done = try_emit_local(usb_q, msg);
    (serial_done, usb_done)
}

} // verus!
