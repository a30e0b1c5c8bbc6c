//! Debounced button with a coalescing "was pressed" latch.
//!
//! The edge-detection task waits for an edge, lets the contact settle, and
//! re-reads the level; only a level that really changed updates the state,
//! and only a low-going (press) transition sets the sticky latch. Polling
//! the latch reads and clears it, so each physical press is seen exactly
//! once and presses between two polls coalesce.

use vstd::prelude::*;

verus! {

/// Debounced state of the operator button: the current level and the sticky
/// press latch.
#[derive(Clone, Copy, PartialEq, Eq, Structural, Debug)]
pub struct Button {
    /// Whether the button is currently held down (input level low).
    pub pressed: bool,
    /// Sticky latch: a press happened since the last poll.
    pub pressed_was: bool,
}

/// The state after one settled edge reading `now_low`: a real level change
/// updates the current state, and only a press sets the latch.
pub open spec fn spec_edge(b: Button, now_low: bool) -> Button {
    if now_low != b.pressed {
        Button { pressed: now_low, pressed_was: b.pressed_was || now_low }
    } else {
        b
    }
}

/// The state after one latch poll: the latch is cleared.
pub open spec fn spec_polled(b: Button) -> Button {
    Button { pressed: b.pressed, pressed_was: false }
}

impl Button {
    pub fn new() -> (b: Self)
        ensures
            !b.pressed,
            !b.pressed_was,
    {
        Button { pressed: false, pressed_was: false }
    }

    /// Record the level seen when the detection task starts; the latch is
    /// not touched.
    pub fn init_level(&mut self, now_low: bool)
        ensures
            final(self).pressed == now_low,
            final(self).pressed_was == old(self).pressed_was,
    {
        self.pressed = now_low;
    }

    /// Current debounced level.
    pub fn is_pressed(&self) -> (r: bool)
        ensures r == self.pressed,
    {
        self.pressed
    }

    /// Read and clear the sticky press latch: returns whether a press
    /// happened since the previous poll.
    pub fn was_pressed(&mut self) -> (r: bool)
        ensures
            r == old(self).pressed_was,
            *final(self) == spec_polled(*old(self)),
    {
        let r = self.pressed_was;
        self.pressed_was = false;
        r
    }

    /// Feed one settled level reading, taken after an edge and the settle
    /// delay.
    pub fn edge_settled(&mut self, now_low: bool)
        ensures
            *final(self) == spec_edge(*old(self), now_low),
    {
        if now_low != self.pressed {
            self.pressed = now_low;
            if now_low {
                self.pressed_was = true;
            }
        }
    }
}

/// Press coalescing: two presses arriving before a single poll yield exactly
/// one positive poll, and the next poll is negative when no new press
/// occurred.
pub proof fn lemma_press_coalescing(b: Button)
    requires
        !b.pressed,
        !b.pressed_was,
    ensures
        ({
            let after_two = spec_edge(spec_edge(spec_edge(b, true), false), true);
            after_two.pressed_was && !spec_polled(after_two).pressed_was
        }),
{
}

} // verus!
