//! The debounced lap counter and its derived per-track statistics.
//!
//! Each track owns an append-only, bounded history of timestamps. The first
//! entry, written at reset, is an anchor marking the start of the session;
//! every later entry marks a completed lap. A detection is accepted only when
//! it arrives more than the debounce window after the last stored timestamp,
//! so sensor chatter never produces extra laps. Once the history is full,
//! further detections are silently discarded.

use vstd::prelude::*;

use crate::bounded::BoundedVec;
use crate::bounded::HISTORY_CAPACITY;
use crate::io::TRACKS;
use crate::io::Track;
use crate::time::Duration;
use crate::time::Instant;

verus! {

/// Minimum time, in microseconds, that must pass after the last stored
/// detection on a track before a new detection counts as a genuine lap.
pub const DEBOUNCE_MICROS: u64 = 100_000;

/// A track history is well formed when it fits its capacity and its
/// timestamps are strictly increasing.
pub open spec fn wf_history(h: Seq<u64>) -> bool {
    &&& h.len() <= HISTORY_CAPACITY
    &&& forall|i: int, j: int| 0 <= i < j < h.len() ==> h[i] < h[j]
}

/// Completed laps recorded in a history: one fewer than its timestamps,
/// since the first entry is the session anchor.
pub open spec fn laps_of(h: Seq<u64>) -> nat {
    if h.len() == 0 {
        0
    } else {
        (h.len() - 1) as nat
    }
}

/// The lap durations of a history: the gap between each consecutive pair of
/// timestamps, in microseconds.
pub open spec fn durations_of(h: Seq<u64>) -> Seq<u64> {
    if h.len() == 0 {
        Seq::empty()
    } else {
        Seq::new((h.len() - 1) as nat, |i: int| (h[i + 1] - h[i]) as u64)
    }
}

/// Whether a detection at `ts` is accepted as a genuine lap: always on an
/// empty history, otherwise only when `ts` lies more than the debounce
/// window after the last stored timestamp.
pub open spec fn accepts(h: Seq<u64>, ts: u64) -> bool {
    h.len() == 0 || (h.last() < ts && ts - h.last() > DEBOUNCE_MICROS)
}

/// The history after a detection at `ts`: appended when accepted and below
/// capacity, unchanged otherwise.
pub open spec fn after_record(h: Seq<u64>, ts: u64) -> Seq<u64> {
    if accepts(h, ts) && h.len() < HISTORY_CAPACITY {
        h.push(ts)
    } else {
        h
    }
}

/// The counter state after a reset at tick `t`: every track anchored at `t`
/// with no laps.
pub open spec fn reset_view(t: u64) -> Seq<Seq<u64>> {
    seq![seq![t], seq![t], seq![t]]
}

/// Whether `m` is the minimum of `s`.
pub open spec fn is_min_of(s: Seq<u64>, m: u64) -> bool {
    &&& s.contains(m)
    &&& forall|i: int| 0 <= i < s.len() ==> m <= s[i]
}

/// The minimum of a sequence, taken as zero when the sequence is empty.
pub open spec fn seq_min(s: Seq<u64>) -> u64
    decreases s.len(),
{
    if s.len() == 0 {
        0
    } else if s.len() == 1 {
        s[0]
    } else {
        let rest = seq_min(s.drop_first());
        if s[0] <= rest {
            s[0]
        } else {
            rest
        }
    }
}

/// The minimum of a non-empty sequence is one of its elements and below all
/// of them.
pub proof fn lemma_seq_min_is_min(s: Seq<u64>)
    requires
        s.len() > 0,
    ensures
        is_min_of(s, seq_min(s)),
    decreases s.len(),
{
    if s.len() == 1 {
        assert(s.contains(seq_min(s))) by {
            assert(s[0] == seq_min(s));
        }
    } else {
        lemma_seq_min_is_min(s.drop_first());
        let rest = s.drop_first();
        let m = seq_min(s);
        if s[0] <= seq_min(rest) {
            assert(s.contains(m)) by {
                assert(s[0] == m);
            }
        } else {
            let i = choose|i: int| 0 <= i < rest.len() && rest[i] == m;
            assert(s[i + 1] == m);
            assert(s.contains(m));
        }
        assert forall|i: int| 0 <= i < s.len() implies m <= s[i] by {
            if i > 0 {
                assert(rest[i - 1] == s[i]);
            }
        }
    }
}

/// Two minimums of the same sequence are equal.
pub proof fn lemma_min_unique(s: Seq<u64>, a: u64, b: u64)
    requires
        is_min_of(s, a),
        is_min_of(s, b),
    ensures
        a == b,
{
    let i = choose|i: int| 0 <= i < s.len() && s[i] == a;
    let j = choose|j: int| 0 <= j < s.len() && s[j] == b;
    assert(b <= s[i]);
    assert(a <= s[j]);
}

/// Debounce filtering: two detections separated by no more than the
/// debounce window record at most one lap between them, whatever the
/// history held before.
pub proof fn lemma_debounce_filters(h: Seq<u64>, t1: u64, t2: u64)
    requires
        wf_history(h),
        t2 - t1 <= DEBOUNCE_MICROS,
    ensures
        laps_of(after_record(after_record(h, t1), t2)) <= laps_of(h) + 1,
{
    let h1 = after_record(h, t1);
    if accepts(h, t1) && h.len() < HISTORY_CAPACITY {
        assert(h1.last() == t1);
        assert(!accepts(h1, t2));
    }
}

/// Debounce passing: a detection more than the debounce window after an
/// accepted one is accepted as well, and both are recorded when the history
/// has room for them.
pub proof fn lemma_debounce_passes(h: Seq<u64>, t1: u64, t2: u64)
    requires
        wf_history(h),
        h.len() + 2 <= HISTORY_CAPACITY,
        accepts(h, t1),
        t1 < t2,
        t2 - t1 > DEBOUNCE_MICROS,
    ensures
        after_record(after_record(h, t1), t2) == h.push(t1).push(t2),
        h.len() >= 1 ==> laps_of(after_record(after_record(h, t1), t2)) == laps_of(h) + 2,
{
    let h1 = after_record(h, t1);
    assert(h1 == h.push(t1));
    assert(h1.last() == t1);
    assert(accepts(h1, t2));
}

/// Lap counts are non-decreasing: applying a detection, whether it is
/// recorded or filtered as noise, never lowers the lap count, and raises it
/// by at most one.
pub proof fn lemma_laps_monotonic(h: Seq<u64>, ts: u64)
    ensures
        laps_of(h) <= laps_of(after_record(h, ts)),
        laps_of(after_record(h, ts)) <= laps_of(h) + 1,
{
}

/// A history fed one detection after another, in order.
pub open spec fn after_records(h: Seq<u64>, detections: Seq<u64>) -> Seq<u64>
    decreases detections.len(),
{
    if detections.len() == 0 {
        h
    } else {
        after_records(after_record(h, detections[0]), detections.drop_first())
    }
}

/// Between resets the lap count never decreases, however many detections a
/// run contains and however many of them the debounce filter discards.
pub proof fn lemma_laps_monotonic_run(h: Seq<u64>, detections: Seq<u64>)
    ensures
        laps_of(h) <= laps_of(after_records(h, detections)),
    decreases detections.len(),
{
    if detections.len() > 0 {
        lemma_laps_monotonic(h, detections[0]);
        lemma_laps_monotonic_run(after_record(h, detections[0]), detections.drop_first());
    }
}

/// After exactly one recorded lap, the best duration is that lap's
/// duration.
pub proof fn lemma_best_of_single(s: Seq<u64>, m: u64)
    requires
        s.len() == 1,
        is_min_of(s, m),
    ensures
        m == s.last(),
{
    let i = choose|i: int| 0 <= i < s.len() && s[i] == m;
}

/// A reset leaves every track with zero laps and no durations; because the
/// state after a reset depends only on the reset instant, a second reset at
/// the same instant reproduces the identical state.
pub proof fn lemma_reset_state(t: u64, track: int)
    requires
        0 <= track < 3,
    ensures
        laps_of(reset_view(t)[track]) == 0,
        durations_of(reset_view(t)[track]) =~= Seq::<u64>::empty(),
        wf_history(reset_view(t)[track]),
{
}

/// A read-only snapshot of one track's results, derived on demand.
pub struct TrackStats {
    track: Track,
    stats: BoundedVec,
}

impl TrackStats {
    /// The track this snapshot describes.
    pub closed spec fn spec_track(self) -> Track {
        self.track
    }

    /// The recorded lap durations, oldest first, in microseconds.
    pub closed spec fn spec_durations(self) -> Seq<u64> {
        self.stats@
    }

    /// A snapshot is well formed when its track is in range and its
    /// durations fit the history capacity.
    pub open spec fn wf(self) -> bool {
        &&& self.spec_track() < TRACKS
        &&& self.spec_durations().len() <= HISTORY_CAPACITY
    }

    pub fn track(&self) -> (r: Track)
        ensures
            r == self.spec_track(),
    {
        self.track
    }

    /// The number of completed laps.
    pub fn laps(&self) -> (r: usize)
        ensures
            r == self.spec_durations().len(),
    {
        self.stats.len()
    }

    /// The most recent lap duration, or `None` before the first lap.
    pub fn last(&self) -> (r: Option<Duration>)
        ensures
            self.spec_durations().len() == 0 ==> r is None,
            self.spec_durations().len() > 0 ==> (r matches Some(d)
                && d.spec_micros() == self.spec_durations().last()),
    {
        let len = self.stats.len();
        if len == 0 {
            None
        } else {
            match self.stats.get(len - 1) {
                Some(micros) => Some(Duration::from_micros(micros)),
                None => None,
            }
        }
    }

    /// The fastest lap duration, or `None` before the first lap.
    pub fn best(&self) -> (r: Option<Duration>)
        ensures
            self.spec_durations().len() == 0 ==> r is None,
            self.spec_durations().len() > 0 ==> (r matches Some(d)
                && is_min_of(self.spec_durations(), d.spec_micros())),
    {
        let len = self.stats.len();
        if len == 0 {
            return None;
        }
        let mut m: u64 = match self.stats.get(0) {
            Some(micros) => micros,
            None => 0,
        };
        let mut i: usize = 1;
        while i < len
            invariant
                1 <= i <= len,
                len == self.spec_durations().len(),
                self.spec_durations().contains(m),
                forall|j: int| 0 <= j < i ==> m <= self.spec_durations()[j],
            decreases len - i,
        {
            let cur = match self.stats.get(i) {
                Some(micros) => micros,
                None => 0,
            };
            if cur < m {
                m = cur;
            }
            i += 1;
        }
        Some(Duration::from_micros(m))
    }

    /// Every recorded lap duration, oldest first.
    pub fn history(&self) -> (r: Vec<Duration>)
        ensures
            r@.len() == self.spec_durations().len(),
            forall|i: int| 0 <= i < r@.len() ==> r@[i].spec_micros() == self.spec_durations()[i],
    {
        let len = self.stats.len();
        let mut out: Vec<Duration> = Vec::new();
        let mut i: usize = 0;
        while i < len
            invariant
                i <= len,
                len == self.spec_durations().len(),
                out@.len() == i,
                forall|j: int| 0 <= j < i ==> out@[j].spec_micros() == self.spec_durations()[j],
            decreases len - i,
        {
            let micros = match self.stats.get(i) {
                Some(micros) => micros,
                None => 0,
            };
            out.push(Duration::from_micros(micros));
            i += 1;
        }
        out
    }
}

/// The per-track lap histories, with debounce filtering on record.
pub struct LapCounter {
    h0: BoundedVec,
    h1: BoundedVec,
    h2: BoundedVec,
}

impl View for LapCounter {
    type V = Seq<Seq<u64>>;

    closed spec fn view(&self) -> Seq<Seq<u64>> {
        seq![self.h0@, self.h1@, self.h2@]
    }
}

impl LapCounter {
    /// Every history is in range and strictly increasing.
    pub open spec fn wf(self) -> bool {
        &&& self@.len() == TRACKS
        &&& forall|t: int| 0 <= t < TRACKS ==> wf_history(#[trigger] self@[t])
    }
}

impl Default for LapCounter {
    /// A counter with no sessions started: every history empty.
    fn default() -> (r: LapCounter)
        ensures
            r.wf(),
            forall|t: int| 0 <= t < TRACKS ==> #[trigger] r@[t] == Seq::<u64>::empty(),
    {
        LapCounter { h0: BoundedVec::new(), h1: BoundedVec::new(), h2: BoundedVec::new() }
    }
}

/// Applies one detection to a single track history: appends the timestamp
/// when it passes the debounce filter and the history has room.
fn record_in(h: &mut BoundedVec, ts: Instant)
    requires
        wf_history(old(h)@),
    ensures
        final(h)@ == after_record(old(h)@, ts.spec_ticks()),
        wf_history(final(h)@),
{
    let len = h.len();
    let valid = if len == 0 {
        true
    } else {
        let last = match h.get(len - 1) {
            Some(t) => t,
            None => 0,
        };
        match ts.checked_duration_since(&Instant::from_ticks(last)) {
            Some(gap) => gap.micros() > DEBOUNCE_MICROS,
            None => false,
        }
    };
    if valid {
        let _ = h.push(ts.ticks());
    }
}

/// Clears one track history and anchors it at `now`.
fn reset_in(h: &mut BoundedVec, now: Instant)
    ensures
        final(h)@ =~= seq![now.spec_ticks()],
{
    h.clear();
    let _ = h.push(now.ticks());
}

impl LapCounter {
    /// Discards all recorded laps and anchors every track's session at
    /// `now`.
    pub fn reset(&mut self, now: Instant)
        ensures
            final(self)@ =~= reset_view(now.spec_ticks()),
            final(self).wf(),
    {
        reset_in(&mut self.h0, now);
        reset_in(&mut self.h1, now);
        reset_in(&mut self.h2, now);
    }

    /// Applies one detection: the timestamp is appended when the track is in
    /// range, the detection passes the debounce filter and the history has
    /// room. Whether or not the detection was kept, the caller gets the
    /// track's current statistics; only an out-of-range track yields `None`.
    pub fn record_lap(&mut self, track: Track, ts: Instant) -> (r: Option<TrackStats>)
        requires
            old(self).wf(),
        ensures
            final(self).wf(),
            track >= TRACKS ==> r is None && final(self)@ == old(self)@,
            track < TRACKS ==> {
                &&& final(self)@[track as int] == after_record(
                    old(self)@[track as int],
                    ts.spec_ticks(),
                )
                &&& forall|t: int|
                    0 <= t < TRACKS && t != track ==> final(self)@[t] == old(self)@[t]
                &&& (r matches Some(st) && st.spec_track() == track && st.spec_durations()
                    == durations_of(final(self)@[track as int]) && st.wf())
            },
    {
        if track >= TRACKS {
            return None;
        }
        if track == 0 {
            record_in(&mut self.h0, ts);
        } else if track == 1 {
            record_in(&mut self.h1, ts);
        } else {
            record_in(&mut self.h2, ts);
        }
        self.stats(track)
    }

    /// The current statistics for one track, or `None` when the track is out
    /// of range. Pure read: the counter is not changed.
    pub fn stats(&self, track: Track) -> (r: Option<TrackStats>)
        requires
            self.wf(),
        ensures
            track >= TRACKS ==> r is None,
            track < TRACKS ==> (r matches Some(st) && st.spec_track() == track
                && st.spec_durations() == durations_of(self@[track as int]) && st.wf()),
    {
        if track >= TRACKS {
            return None;
        }
        let h = if track == 0 {
            &self.h0
        } else if track == 1 {
            &self.h1
        } else {
            &self.h2
        };
        let ghost hist = self@[track as int];
        let len = h.len();
        let mut stats = BoundedVec::new();
        let mut i: usize = 1;
        while i < len
            invariant
                1 <= i,
                i <= len || len == 0,
                len == hist.len(),
                h@ == hist,
                wf_history(hist),
                stats@.len() == if i <= len { (i - 1) as int } else { 0 },
                forall|j: int| 0 <= j < stats@.len() ==> stats@[j] == hist[j + 1] - hist[j],
            decreases len - i,
        {
            let prev = match h.get(i - 1) {
                Some(t) => t,
                None => 0,
            };
            let cur = match h.get(i) {
                Some(t) => t,
                None => 0,
            };
            let _ = stats.push(cur - prev);
            i += 1;
        }
        assert(stats@ =~= durations_of(hist));
        Some(TrackStats { track, stats })
    }
}

} // verus!
