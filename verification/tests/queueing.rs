use midi_touch::config::MIDI_CHANNEL_SIZE;
use midi_touch::midi::MidiMsg;
use midi_touch::queue::{CrossCoreQueue, LocalQueue};
use midi_touch::router::{route_event, try_emit, try_emit_local};

fn on(note: i8) -> MidiMsg {
    MidiMsg::NoteOn { note, velocity: 64 }
}

fn off(note: i8) -> MidiMsg {
    MidiMsg::NoteOff { note, velocity: 0 }
}

#[test]
fn queue_is_fifo_and_bounded() {
    let mut q = CrossCoreQueue::new();
    assert_eq!(q.len(), 0);
    assert_eq!(q.try_receive(), None);
    for i in 0..MIDI_CHANNEL_SIZE {
        assert!(q.try_send(on(i as i8)));
    }
    assert_eq!(q.len(), MIDI_CHANNEL_SIZE);
    // a full queue refuses immediately
    assert!(!q.try_send(on(99)));
    assert_eq!(q.len(), MIDI_CHANNEL_SIZE);
    // and hands events back oldest first
    for i in 0..MIDI_CHANNEL_SIZE {
        assert_eq!(q.try_receive(), Some(on(i as i8)));
    }
    assert_eq!(q.try_receive(), None);
}

#[test]
fn note_on_is_dropped_on_full_queue() {
    let mut q = CrossCoreQueue::new();
    for i in 0..MIDI_CHANNEL_SIZE {
        assert!(q.try_send(on(i as i8)));
    }
    // the attempt returns immediately as done: the event was dropped
    let done = try_emit(&mut q, on(99));
    assert!(done);
    assert_eq!(q.len(), MIDI_CHANNEL_SIZE);
    // nothing with note 99 is in the queue
    while let Some(msg) = q.try_receive() {
        assert_ne!(msg, on(99));
    }
}

#[test]
fn note_off_waits_for_space() {
    let mut q = CrossCoreQueue::new();
    for i in 0..MIDI_CHANNEL_SIZE {
        assert!(q.try_send(on(i as i8)));
    }
    // a note-off is not done while the queue is full: the caller must keep
    // offering it
    let done = try_emit(&mut q, off(42));
    assert!(!done);
    assert_eq!(q.len(), MIDI_CHANNEL_SIZE);
    // drain one slot; now the same offer succeeds
    assert_eq!(q.try_receive(), Some(on(0)));
    let done2 = try_emit(&mut q, off(42));
    assert!(done2);
    assert_eq!(q.len(), MIDI_CHANNEL_SIZE);
    // the note-off really is queued, at the end
    let mut last = None;
    while let Some(msg) = q.try_receive() {
        last = Some(msg);
    }
    assert_eq!(last, Some(off(42)));
}

#[test]
fn note_on_on_free_queue_is_queued() {
    let mut q = CrossCoreQueue::new();
    assert!(try_emit(&mut q, on(60)));
    assert_eq!(q.try_receive(), Some(on(60)));
}

#[test]
fn router_copies_to_both_transports() {
    let mut serial_q = LocalQueue::new();
    let mut usb_q = LocalQueue::new();
    assert_eq!(route_event(&mut serial_q, &mut usb_q, on(60)), (true, true));
    assert_eq!(route_event(&mut serial_q, &mut usb_q, off(60)), (true, true));
    assert_eq!(serial_q.len(), 2);
    assert_eq!(usb_q.len(), 2);
    assert_eq!(serial_q.try_receive(), Some(on(60)));
    assert_eq!(serial_q.try_receive(), Some(off(60)));
    assert_eq!(usb_q.try_receive(), Some(on(60)));
    assert_eq!(usb_q.try_receive(), Some(off(60)));
}

#[test]
fn router_drops_note_on_on_full_transport_queue() {
    let mut serial_q = LocalQueue::new();
    let mut usb_q = LocalQueue::new();
    for i in 0..MIDI_CHANNEL_SIZE {
        assert!(serial_q.try_send(on(i as i8)));
    }
    // serial is full: the note-on copy for it is dropped and done; the usb
    // copy still lands, without one transport blocking the other
    let done = route_event(&mut serial_q, &mut usb_q, on(99));
    assert_eq!(done, (true, true));
    assert_eq!(serial_q.len(), MIDI_CHANNEL_SIZE);
    assert_eq!(usb_q.len(), 1);
    assert_eq!(usb_q.try_receive(), Some(on(99)));
}

#[test]
fn router_keeps_note_off_for_full_transport_queue() {
    let mut serial_q = LocalQueue::new();
    let mut usb_q = LocalQueue::new();
    for i in 0..MIDI_CHANNEL_SIZE {
        assert!(serial_q.try_send(on(i as i8)));
    }
    // serial is full: the note-off is not done for it and must be offered
    // again; the usb copy lands at once
    let done = route_event(&mut serial_q, &mut usb_q, off(42));
    assert_eq!(done, (false, true));
    assert_eq!(serial_q.len(), MIDI_CHANNEL_SIZE);
    assert_eq!(usb_q.len(), 1);
    // the transport drains one event; the re-offer now succeeds
    assert_eq!(serial_q.try_receive(), Some(on(0)));
    assert!(try_emit_local(&mut serial_q, off(42)));
    let mut last = None;
    while let Some(msg) = serial_q.try_receive() {
        last = Some(msg);
    }
    assert_eq!(last, Some(off(42)));
}
