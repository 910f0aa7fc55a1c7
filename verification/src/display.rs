//! The time-multiplexed seven-segment display state machine.
//!
//! Six digit positions (two per track) share one set of segment lines and
//! are activated one at a time through per-digit common-select lines. An
//! external periodic trigger calls `animate` once per frame; cycling fast
//! enough, persistence of vision makes all six digits appear lit at once.
//!
//! The driver is a pure state machine over plain values: `commons[i]` is
//! `true` when digit position `i` is selected and `segments[j]` is `true`
//! when segment `j` is lit. The hardware layer forwards these levels to the
//! output pins (the common lines are active-low on the wire).

use vstd::prelude::*;

use crate::io::TRACKS;
use crate::io::Track;

verus! {

/// The seven-segment pattern for a decimal digit: bit 0 drives segment A
/// through bit 6 driving segment G; a set bit lights the segment.
pub open spec fn spec_digit_pattern(d: int) -> u8 {
    if d == 0 {
        0x3f
    } else if d == 1 {
        0x06
    } else if d == 2 {
        0x5b
    } else if d == 3 {
        0x4f
    } else if d == 4 {
        0x66
    } else if d == 5 {
        0x6d
    } else if d == 6 {
        0x7d
    } else if d == 7 {
        0x07
    } else if d == 8 {
        0x7f
    } else if d == 9 {
        0x6f
    } else {
        0
    }
}

/// The decimal digit a seven-segment pattern stands for, or `None` when the
/// pattern renders no digit.
pub open spec fn spec_digit_of_pattern(p: u8) -> Option<int> {
    if p == 0x3f {
        Some(0int)
    } else if p == 0x06 {
        Some(1int)
    } else if p == 0x5b {
        Some(2int)
    } else if p == 0x4f {
        Some(3int)
    } else if p == 0x66 {
        Some(4int)
    } else if p == 0x6d {
        Some(5int)
    } else if p == 0x7d {
        Some(6int)
    } else if p == 0x07 {
        Some(7int)
    } else if p == 0x7f {
        Some(8int)
    } else if p == 0x6f {
        Some(9int)
    } else {
        None
    }
}

/// The eight segment-line levels that a pattern byte drives, segment A
/// first. Bit 7, the decimal point, is carried but never set by a digit.
pub open spec fn pattern_bits(p: u8) -> Seq<bool> {
    seq![
        (p & 1) == 1,
        (p & 2) == 2,
        (p & 4) == 4,
        (p & 8) == 8,
        (p & 16) == 16,
        (p & 32) == 32,
        (p & 64) == 64,
        (p & 128) == 128,
    ]
}

/// The track rendered during frame `f`.
pub open spec fn frame_track(f: usize) -> int {
    ((f / 2) % 3) as int
}

/// The digit position activated during frame `f`.
pub open spec fn frame_digit(f: usize) -> int {
    (f % 6) as int
}

/// The decimal digit shown for a lap count at one digit position: the units
/// digit at even positions, the tens digit at odd ones.
pub open spec fn rendered_value(laps: usize, digit_idx: int) -> int {
    if digit_idx % 2 == 0 {
        (laps % 10) as int
    } else {
        ((laps / 10) % 10) as int
    }
}

/// Decoding inverts the digit table: every decimal digit's pattern decodes
/// back to that digit.
pub proof fn lemma_pattern_decodes(d: int)
    requires
        0 <= d < 10,
    ensures
        spec_digit_of_pattern(spec_digit_pattern(d)) == Some(d),
{
}

/// Display digit round trip: for any lap count up to ninety-nine, the units
/// and tens patterns rendered across a full multiplexing cycle decode back
/// to the count.
pub proof fn lemma_digit_roundtrip(laps: usize)
    requires
        laps <= 99,
    ensures
        ({
            let units = spec_digit_of_pattern(spec_digit_pattern(rendered_value(laps, 0)));
            let tens = spec_digit_of_pattern(spec_digit_pattern(rendered_value(laps, 1)));
            &&& units matches Some(u) && tens matches Some(t) && 10 * t + u == laps
        }),
{
    lemma_pattern_decodes((laps % 10) as int);
    lemma_pattern_decodes(((laps / 10) % 10) as int);
}

/// The seven-segment pattern for a decimal digit.
pub fn digit_pattern(d: usize) -> (r: u8)
    requires
        d < 10,
    ensures
        r == spec_digit_pattern(d as int),
{
    match d {
        0 => 0x3f,
        1 => 0x06,
        2 => 0x5b,
        3 => 0x4f,
        4 => 0x66,
        5 => 0x6d,
        6 => 0x7d,
        7 => 0x07,
        8 => 0x7f,
        _ => 0x6f,
    }
}

/// The multiplexed renderer: a frame counter, the cached lap count per
/// track, and the levels currently driven on the common-select and segment
/// lines.
pub struct Display {
    frame: usize,
    laps: [usize; 3],
    commons: [bool; 6],
    segments: [bool; 8],
}

impl Display {
    /// The frame counter, wrapping on overflow.
    pub closed spec fn spec_frame(self) -> usize {
        self.frame
    }

    /// The cached lap count for each track.
    pub closed spec fn spec_laps(self) -> Seq<usize> {
        self.laps@
    }

    /// The common-select line levels: `true` selects the digit position.
    pub closed spec fn spec_commons(self) -> Seq<bool> {
        self.commons@
    }

    /// The segment line levels: `true` lights the segment.
    pub closed spec fn spec_segments(self) -> Seq<bool> {
        self.segments@
    }

    /// A blanked display: no digit selected, no segment lit, all counts
    /// zero.
    pub fn new() -> (r: Display)
        ensures
            r.spec_frame() == 0,
            r.spec_laps() =~= seq![0usize, 0usize, 0usize],
            r.spec_commons() =~= Seq::new(6, |i: int| false),
            r.spec_segments() =~= pattern_bits(0),
    {
        proof {
            assert((0u8 & 1) == 0 && (0u8 & 2) == 0 && (0u8 & 4) == 0 && (0u8 & 8) == 0 && (0u8
                & 16) == 0 && (0u8 & 32) == 0 && (0u8 & 64) == 0 && (0u8 & 128) == 0)
                by (bit_vector);
        }
        Display {
            frame: 0,
            laps: [0, 0, 0],
            commons: [false, false, false, false, false, false],
            segments: [false, false, false, false, false, false, false, false],
        }
    }

    /// Blanks the segment lines and clears the cached lap counts.
    pub fn reset(&mut self)
        ensures
            final(self).spec_laps() =~= seq![0usize, 0usize, 0usize],
            final(self).spec_segments() =~= pattern_bits(0),
            final(self).spec_frame() == old(self).spec_frame(),
            final(self).spec_commons() == old(self).spec_commons(),
    {
        self.set_active_segments(0);
        self.laps = [0, 0, 0];
    }

    /// Updates the cached lap count for one track; an out-of-range track is
    /// a no-op.
    pub fn set_track_laps(&mut self, track: Track, laps: usize)
        ensures
            track < TRACKS ==> final(self).spec_laps() =~= old(self).spec_laps().update(
                track as int,
                laps,
            ),
            track >= TRACKS ==> final(self).spec_laps() == old(self).spec_laps(),
            final(self).spec_frame() == old(self).spec_frame(),
            final(self).spec_commons() == old(self).spec_commons(),
            final(self).spec_segments() == old(self).spec_segments(),
    {
        if track < TRACKS {
            self.laps = [
                if track == 0 {
                    laps
                } else {
                    self.laps[0]
                },
                if track == 1 {
                    laps
                } else {
                    self.laps[1]
                },
                if track == 2 {
                    laps
                } else {
                    self.laps[2]
                },
            ];
        }
    }

    /// Advances one multiplexing frame: blanks the digit-select lines,
    /// drives the segment lines with the digit for this frame's track and
    /// position, activates exactly that position's common line, and steps
    /// the frame counter, wrapping on overflow.
    pub fn animate(&mut self)
        ensures
            final(self).spec_laps() == old(self).spec_laps(),
            final(self).spec_segments() =~= pattern_bits(
                spec_digit_pattern(
                    rendered_value(
                        old(self).spec_laps()[frame_track(old(self).spec_frame())],
                        frame_digit(old(self).spec_frame()),
                    ),
                ),
            ),
            final(self).spec_commons() =~= Seq::new(
                6,
                |i: int| i == frame_digit(old(self).spec_frame()),
            ),
            old(self).spec_frame() < usize::MAX ==> final(self).spec_frame() == old(
                self,
            ).spec_frame() + 1,
            old(self).spec_frame() == usize::MAX ==> final(self).spec_frame() == 0,
    {
        let track_idx = (self.frame / 2) % 3;
        let digit_idx = self.frame % 6;
        let laps = self.laps[track_idx];

        self.set_active_digit(None);
        let value = if digit_idx % 2 == 0 {
            laps % 10
        } else {
            (laps / 10) % 10
        };
        self.set_active_segments(digit_pattern(value));
        self.set_active_digit(Some(digit_idx));
        self.frame = if self.frame == usize::MAX {
            0
        } else {
            self.frame + 1
        };
    }

    /// Drives the common-select lines: exactly the given position active, or
    /// none.
    fn set_active_digit(&mut self, digit_idx: Option<usize>)
        ensures
            (match digit_idx {
                Some(d) => final(self).spec_commons() =~= Seq::new(6, |i: int| i == d),
                None => final(self).spec_commons() =~= Seq::new(6, |i: int| false),
            }),
            final(self).spec_frame() == old(self).spec_frame(),
            final(self).spec_laps() == old(self).spec_laps(),
            final(self).spec_segments() == old(self).spec_segments(),
    {
        match digit_idx {
            Some(d) => {
                self.commons = [d == 0, d == 1, d == 2, d == 3, d == 4, d == 5];
            },
            None => {
                self.commons = [false, false, false, false, false, false];
            },
        }
    }

    /// Drives the segment lines with a pattern byte, segment A on bit 0.
    fn set_active_segments(&mut self, data: u8)
        ensures
            final(self).spec_segments() =~= pattern_bits(data),
            final(self).spec_frame() == old(self).spec_frame(),
            final(self).spec_laps() == old(self).spec_laps(),
            final(self).spec_commons() == old(self).spec_commons(),
    {
        self.segments = [
            (data & 1) == 1,
            (data & 2) == 2,
            (data & 4) == 4,
            (data & 8) == 8,
            (data & 16) == 16,
            (data & 32) == 32,
            (data & 64) == 64,
            (data & 128) == 128,
        ];
    }

    /// The current common-select line levels, for the hardware layer and for
    /// observation.
    pub fn commons(&self) -> (r: [bool; 6])
        ensures
            r@ == self.spec_commons(),
    {
        self.commons
    }

    /// The current segment line levels, for the hardware layer and for
    /// observation.
    pub fn segments(&self) -> (r: [bool; 8])
        ensures
            r@ == self.spec_segments(),
    {
        self.segments
    }

    /// The current frame counter.
    pub fn frame(&self) -> (r: usize)
        ensures
            r == self.spec_frame(),
    {
        self.frame
    }
}

} // verus!
