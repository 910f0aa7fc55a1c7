//! Logical edge-interrupt state for the track sensors and the buttons.
//!
//! The physical pins expose two operations: "interrupt pending?" and "clear
//! interrupt". These types carry that pending state as plain values; the
//! hardware layer latches a pending flag when an edge fires, and the
//! dispatcher consumes and clears it.

use vstd::prelude::*;

use crate::time::Instant;

verus! {

/// Identifier for one lane of the track.
pub type Track = usize;

/// Number of lanes.
pub const TRACKS: usize = 3;

/// The per-track sensor flags always cover exactly the three tracks.
pub proof fn lemma_sensors_pending_len(s: Sensors)
    ensures
        s.spec_pending().len() == 3,
{
}

/// The button flags always cover exactly the three buttons.
pub proof fn lemma_buttons_pending_len(b: Buttons)
    ensures
        b.spec_pending().len() == 3,
{
}

/// Pending edge-interrupt flags for the per-track sensors.
pub struct Sensors {
    pending: [bool; 3],
}

impl Sensors {
    /// Which sensors have a latched, unconsumed detection.
    pub closed spec fn spec_pending(self) -> Seq<bool> {
        self.pending@
    }

    pub fn new() -> (r: Sensors)
        ensures
            r.spec_pending() =~= seq![false, false, false],
    {
        Sensors { pending: [false, false, false] }
    }

    /// Latches a detection edge on one track, as the sensor hardware does.
    pub fn set_detected(&mut self, track: Track)
        requires
            track < TRACKS,
        ensures
            final(self).spec_pending() =~= old(self).spec_pending().update(track as int, true),
    {
        self.pending = [
            track == 0 || self.pending[0],
            track == 1 || self.pending[1],
            track == 2 || self.pending[2],
        ];
    }

    /// Consumes a pending detection: reports whether one was latched and
    /// clears the flag.
    pub fn is_car_detected(&mut self, track: Track) -> (r: bool)
        requires
            track < TRACKS,
        ensures
            r == old(self).spec_pending()[track as int],
            final(self).spec_pending() =~= old(self).spec_pending().update(track as int, false),
    {
        let was = self.pending[track];
        self.pending = [
            track != 0 && self.pending[0],
            track != 1 && self.pending[1],
            track != 2 && self.pending[2],
        ];
        was
    }
}

/// The three user buttons.
#[derive(Clone, Copy, Debug, PartialEq, Eq, Structural)]
pub enum Button {
    A,
    B,
    C,
}

impl Button {
    /// The array slot this button occupies.
    pub open spec fn spec_index(self) -> int {
        match self {
            Button::A => 0,
            Button::B => 1,
            Button::C => 2,
        }
    }

    pub fn index(&self) -> (r: usize)
        ensures
            r == self.spec_index(),
            r < 3,
    {
        match self {
            Button::A => 0,
            Button::B => 1,
            Button::C => 2,
        }
    }
}

/// A logical input event, produced when a latched interrupt is consumed.
#[derive(Clone, Copy, Debug, PartialEq, Eq, Structural)]
pub enum IoEvent {
    ButtonPressed(Button),
    CarDetected(Track, Instant),
}

/// Pending edge-interrupt flags for the buttons.
pub struct Buttons {
    pending: [bool; 3],
}

impl Buttons {
    /// Which buttons have a latched, unconsumed press.
    pub closed spec fn spec_pending(self) -> Seq<bool> {
        self.pending@
    }

    pub fn new() -> (r: Buttons)
        ensures
            r.spec_pending() =~= seq![false, false, false],
    {
        Buttons { pending: [false, false, false] }
    }

    /// Latches a press edge on one button, as the hardware does.
    pub fn set_pressed(&mut self, btn: Button)
        ensures
            final(self).spec_pending() =~= old(self).spec_pending().update(btn.spec_index(), true),
    {
        let i = btn.index();
        self.pending = [
            i == 0 || self.pending[0],
            i == 1 || self.pending[1],
            i == 2 || self.pending[2],
        ];
    }

    /// Consumes a pending press: reports whether one was latched and clears
    /// the flag.
    pub fn is_pressed(&mut self, btn: Button) -> (r: bool)
        ensures
            r == old(self).spec_pending()[btn.spec_index()],
            final(self).spec_pending() =~= old(self).spec_pending().update(btn.spec_index(), false),
    {
        let i = btn.index();
        let was = self.pending[i];
        self.pending = [
            i != 0 && self.pending[0],
            i != 1 && self.pending[1],
            i != 2 && self.pending[2],
        ];
        was
    }
}

} // verus!
