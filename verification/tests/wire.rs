use midi_touch::midi::MidiMsg;
use midi_touch::usb_midi::{UsbBatcher, USB_PACKET_FULL};

#[test]
fn note_on_wire_frame() {
    let msg = MidiMsg::NoteOn { note: 60, velocity: 64 };
    let mut buf = vec![0u8; 3];
    let n = msg.serialize(&mut buf);
    assert_eq!(n, 3);
    assert_eq!(buf, vec![0x90, 60, 64]);
}

#[test]
fn note_off_wire_frame() {
    let msg = MidiMsg::NoteOff { note: 60, velocity: 0 };
    let mut buf = vec![0u8; 3];
    let n = msg.serialize(&mut buf);
    assert_eq!(n, 3);
    assert_eq!(buf, vec![0x80, 60, 0]);
}

#[test]
fn negative_note_fails_to_serialize() {
    let msg = MidiMsg::NoteOn { note: -1, velocity: 64 };
    let mut buf = vec![0xAAu8; 3];
    let n = msg.serialize(&mut buf);
    assert_eq!(n, 0);
    assert_eq!(buf, vec![0xAA, 0xAA, 0xAA]);

    let msg2 = MidiMsg::NoteOff { note: 60, velocity: -3 };
    let n2 = msg2.serialize(&mut buf);
    assert_eq!(n2, 0);
    assert_eq!(buf, vec![0xAA, 0xAA, 0xAA]);
}

#[test]
fn short_buffer_fails_to_serialize() {
    let msg = MidiMsg::NoteOn { note: 60, velocity: 64 };
    let mut buf = vec![0u8; 2];
    assert_eq!(msg.serialize(&mut buf), 0);
    assert_eq!(buf, vec![0, 0]);
}

#[test]
fn code_index_numbers() {
    assert_eq!(MidiMsg::NoteOn { note: 60, velocity: 64 }.usb_cin(), 0x09);
    assert_eq!(MidiMsg::NoteOff { note: 60, velocity: 0 }.usb_cin(), 0x08);
}

#[test]
fn usb_batcher_packs_frames() {
    let mut b = UsbBatcher::new();
    assert!(b.is_empty());
    b.add_msg(MidiMsg::NoteOn { note: 60, velocity: 64 });
    b.add_msg(MidiMsg::NoteOff { note: 61, velocity: 0 });
    assert!(!b.is_empty());
    let packet = b.packet();
    assert_eq!(packet, vec![0x09, 0x90, 60, 64, 0x08, 0x80, 61, 0]);
    b.mark_sent();
    assert!(b.is_empty());
    assert_eq!(b.packet(), vec![]);
}

#[test]
fn usb_batcher_skips_invalid_event() {
    let mut b = UsbBatcher::new();
    b.add_msg(MidiMsg::NoteOn { note: -1, velocity: 64 });
    assert!(b.is_empty());
    assert_eq!(b.packet(), vec![]);
}

#[test]
fn usb_batcher_fills_up() {
    let mut b = UsbBatcher::new();
    for i in 0..(USB_PACKET_FULL / 4) {
        assert!(!b.is_full());
        b.add_msg(MidiMsg::NoteOn { note: i as i8, velocity: 64 });
    }
    assert!(b.is_full());
    assert_eq!(b.packet().len(), USB_PACKET_FULL);
}
