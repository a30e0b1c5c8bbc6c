//! Opportunistic batching of note events into USB-MIDI packets.
//!
//! Each event becomes a 4-byte USB-MIDI frame (code index number followed by
//! the 3-byte wire frame); frames accumulate in a 64-byte packet buffer and
//! are flushed when the buffer nears its capacity or the transport is ready.
//! The USB connection handling itself lives outside the library.

use vstd::prelude::*;

use crate::midi::MidiMsg;

verus! {

/// Size of the USB packet buffer, in bytes.
pub const USB_PACKET_SIZE: usize = 64;

/// Fill level at which the packet buffer must be flushed before another
/// frame can be added.
pub const USB_PACKET_FULL: usize = 60;

/// The packet under construction: a byte buffer and the length of its
/// filled prefix.
pub struct UsbBatcher {
    pub buf: Vec<u8>,
    pub pos: usize,
}

impl UsbBatcher {
    /// The buffer has its fixed size and the fill level is a whole number
    /// of frames within the per-packet budget: no packet ever exceeds
    /// [`USB_PACKET_FULL`] bytes.
    pub open spec fn wf(self) -> bool {
        &&& self.buf@.len() == USB_PACKET_SIZE
        &&& self.pos <= USB_PACKET_FULL
        &&& self.pos % 4 == 0
    }

    pub fn new() -> (r: Self)
        ensures
            r.wf(),
            r.pos == 0,
    {
        let mut buf: Vec<u8> = Vec::new();
        let mut i: usize = 0;
        while i < USB_PACKET_SIZE
            invariant
                i <= USB_PACKET_SIZE,
                buf@.len() == i,
            decreases USB_PACKET_SIZE - i,
        {
            buf.push(0);
            i += 1;
        }
        UsbBatcher { buf, pos: 0 }
    }

    /// Append one event as a 4-byte USB-MIDI frame. An event that cannot be
    /// put on the wire adds nothing (its code index number is scribbled into
    /// the unused byte after the filled prefix, which the packet never
    /// includes).
    pub fn add_msg(&mut self, msg: MidiMsg)
        requires
            old(self).wf(),
            old(self).pos < USB_PACKET_FULL,
        ensures
            final(self).wf(),
            msg.wire_valid() ==> {
                &&& final(self).pos == old(self).pos + 4
                &&& final(self).buf@ == old(self).buf@
                    .update(old(self).pos as int, if msg is NoteOn { 0x09u8 } else { 0x08u8 })
                    .update(old(self).pos + 1, msg.spec_status_byte())
                    .update(old(self).pos + 2, msg.spec_note() as u8)
                    .update(old(self).pos + 3, msg.spec_velocity() as u8)
            },
            !msg.wire_valid() ==> {
                &&& final(self).pos == old(self).pos
                &&& final(self).buf@ == old(self).buf@
                    .update(old(self).pos as int, if msg is NoteOn { 0x09u8 } else { 0x08u8 })
            },
    {
        let cin = msg.usb_cin();
        self.buf.set(self.pos, cin);
        let mut frame: Vec<u8> = Vec::new();
        frame.push(0);
        frame.push(0);
        frame.push(0);
        let num_bytes = msg.serialize(&mut frame);
        if num_bytes == 0 {
            return;
        }
        self.buf.set(self.pos + 1, frame[0]);
        self.buf.set(self.pos + 2, frame[1]);
        self.buf.set(self.pos + 3, frame[2]);
        self.pos += 4;
    }

    /// The buffer cannot take another frame before a flush.
    pub fn is_full(&self) -> (r: bool)
        ensures r == (self.pos >= USB_PACKET_FULL),
    {
        self.pos >= USB_PACKET_FULL
    }

    /// Nothing is waiting to be sent.
    pub fn is_empty(&self) -> (r: bool)
        ensures r == (self.pos == 0),
    {
        self.pos == 0
    }

    /// The packet to hand to the transport: the filled prefix of the buffer.
    pub fn packet(&self) -> (r: Vec<u8>)
        requires self.wf(),
        ensures r@ == self.buf@.subrange(0, self.pos as int),
    {
        let mut r: Vec<u8> = Vec::new();
        let mut i: usize = 0;
        while i < self.pos
            invariant
                i <= self.pos,
                self.pos <= self.buf@.len(),
                r@.len() == i,
                forall|j: int| 0 <= j < i ==> #[trigger] r@[j] == self.buf@[j],
            decreases self.pos - i,
        {
            let b = self.buf[i];
            r.push(b);
            i += 1;
        }
        proof {
            assert(r@ =~= self.buf@.subrange(0, self.pos as int));
        }
        r
    }

    /// Forget the filled prefix once the transport accepted the packet.
    pub fn mark_sent(&mut self)
        requires old(self).wf(),
        ensures
            final(self).wf(),
            final(self).pos == 0,
            final(self).buf@ == old(self).buf@,
    {
        self.pos = 0;
    }
}

} // verus!
