//! MIDI note events and their 3-byte wire encoding.

use vstd::prelude::*;

verus! {

/// A note event. `note` and `velocity` are valid on the wire only when they
/// are non-negative (MIDI range 0..=127).
#[derive(Clone, Copy, PartialEq, Eq, Structural, Debug)]
pub enum MidiMsg {
    NoteOn { note: i8, velocity: i8 },
    NoteOff { note: i8, velocity: i8 },
}

impl MidiMsg {
    /// The message can be put on the wire: note and velocity are non-negative.
    pub open spec fn wire_valid(self) -> bool {
        match self {
            MidiMsg::NoteOn { note, velocity } => note >= 0 && velocity >= 0,
            MidiMsg::NoteOff { note, velocity } => note >= 0 && velocity >= 0,
        }
    }

    /// First byte of the wire frame: note-on or note-off status.
    pub open spec fn spec_status_byte(self) -> u8 {
        match self {
            MidiMsg::NoteOn { .. } => 0x90u8,
            MidiMsg::NoteOff { .. } => 0x80u8,
        }
    }

    pub open spec fn spec_note(self) -> i8 {
        match self {
            MidiMsg::NoteOn { note, .. } => note,
            MidiMsg::NoteOff { note, .. } => note,
        }
    }

    pub open spec fn spec_velocity(self) -> i8 {
        match self {
            MidiMsg::NoteOn { velocity, .. } => velocity,
            MidiMsg::NoteOff { velocity, .. } => velocity,
        }
    }

    /// The 3-byte wire frame of a valid message.
    pub open spec fn spec_wire_frame(self) -> Seq<u8> {
        seq![self.spec_status_byte(), self.spec_note() as u8, self.spec_velocity() as u8]
    }

    /// Write the wire frame into the first three bytes of `buf`.
    ///
    /// Returns the number of bytes written: 3 on success; 0, with `buf`
    /// untouched, when the message has a negative note or velocity or `buf`
    /// is too short.
    pub fn serialize(&self, buf: &mut Vec<u8>) -> (n: usize)
        ensures
            final(buf).len() == old(buf).len(),
            self.wire_valid() && old(buf).len() >= 3 ==> {
                &&& n == 3
                &&& final(buf)@ == old(buf)@
                    .update(0, self.spec_status_byte())
                    .update(1, self.spec_note() as u8)
                    .update(2, self.spec_velocity() as u8)
            },
            !(self.wire_valid() && old(buf).len() >= 3) ==> n == 0 && final(buf)@ == old(buf)@,
    {
        match self {
            MidiMsg::NoteOn { note, velocity } => {
                if *note < 0 || *velocity < 0 || buf.len() < 3 {
                    0
                } else {
                    buf.set(0, 0x90u8);
                    buf.set(1, *note as u8);
                    buf.set(2, *velocity as u8);
                    3
                }
            }
            MidiMsg::NoteOff { note, velocity } => {
                if *note < 0 || *velocity < 0 || buf.len() < 3 {
                    0
                } else {
                    buf.set(0, 0x80u8);
                    buf.set(1, *note as u8);
                    buf.set(2, *velocity as u8);
                    3
                }
            }
        }
    }

    /// USB-MIDI code index number of this message.
    pub fn usb_cin(&self) -> (r: u8)
        ensures
            self is NoteOff ==> r == 0x08,
            self is NoteOn ==> r == 0x09,
    {
        match self {
            MidiMsg::NoteOff { .. } => 0x08,
            MidiMsg::NoteOn { .. } => 0x09,
        }
    }
}

} // verus!
