//! The binary telemetry protocol and its bounded report queue.
//!
//! Reports are fixed eight-byte frames, delivered oldest-first, one per
//! transport-ready slot. New reports are prepended and delivery takes from
//! the back, so the queue is FIFO; when it is full a new report is silently
//! dropped and the oldest entries are kept. Inbound vendor control requests
//! decode to at most one pending application request, last-request-wins.

use vstd::prelude::*;

use crate::bounded::QUEUE_CAPACITY;
use crate::bounded::REPORT_SIZE;
use crate::bounded::ReportQueue;
use crate::counter::TrackStats;
use crate::counter::lemma_min_unique;
use crate::counter::lemma_seq_min_is_min;
use crate::counter::seq_min;

verus! {

/// Control request code asking for a counter reset.
pub const REQUEST_RESET: u8 = 0x01;

/// Control request code asking for a full state snapshot.
pub const REQUEST_SNAPSHOT: u8 = 0x02;

/// A decoded vendor control request, consumed exactly once by the
/// application task.
#[derive(Clone, Copy, Debug, PartialEq, Eq, Structural)]
pub enum AppRequest {
    SendCounterState,
    ResetCounter,
}

/// The sentinel report telling the host that the counters were reset.
pub open spec fn reset_report() -> Seq<u8> {
    Seq::new(REPORT_SIZE as nat, |i: int| 0xffu8)
}

/// The idle report sent when no report is pending.
pub open spec fn idle_report() -> Seq<u8> {
    Seq::new(REPORT_SIZE as nat, |i: int| 0u8)
}

/// The high byte of a value truncated to sixteen bits, big-endian.
pub open spec fn be_hi(v: int) -> u8 {
    (((v / 256) % 256)) as u8
}

/// The low byte of a value truncated to sixteen bits, big-endian.
pub open spec fn be_lo(v: int) -> u8 {
    (v % 256) as u8
}

/// The eight-byte track-stats report: tag `0xfe`, the track index, then lap
/// count, last lap and best lap (both in whole milliseconds), each a
/// big-endian sixteen-bit field.
pub open spec fn stats_report(track: u8, durs: Seq<u64>) -> Seq<u8> {
    let laps = durs.len() as int;
    let last_ms = if durs.len() == 0 {
        0int
    } else {
        durs.last() as int / 1000
    };
    let best_ms = if durs.len() == 0 {
        0int
    } else {
        seq_min(durs) as int / 1000
    };
    seq![
        0xfeu8,
        track,
        be_hi(laps),
        be_lo(laps),
        be_hi(last_ms),
        be_lo(last_ms),
        be_hi(best_ms),
        be_lo(best_ms),
    ]
}

/// The queue contents after one enqueue: the report joins the front when
/// there is room, and is dropped when the queue is full.
pub open spec fn queue_after_push(q: Seq<Seq<u8>>, r: Seq<u8>) -> Seq<Seq<u8>> {
    if q.len() < QUEUE_CAPACITY {
        q.insert(0, r)
    } else {
        q
    }
}

/// FIFO delivery: three reports pushed into an empty queue drain oldest
/// first.
pub proof fn lemma_queue_fifo(r1: Seq<u8>, r2: Seq<u8>, r3: Seq<u8>)
    ensures
        ({
            let q = queue_after_push(
                queue_after_push(queue_after_push(Seq::empty(), r1), r2),
                r3,
            );
            &&& q.len() == 3
            &&& q.last() == r1
            &&& q.drop_last().last() == r2
            &&& q.drop_last().drop_last().last() == r3
        }),
{
    let q1 = queue_after_push(Seq::empty(), r1);
    let q2 = queue_after_push(q1, r2);
    let q3 = queue_after_push(q2, r3);
    assert(q1 =~= seq![r1]);
    assert(q2 =~= seq![r2, r1]);
    assert(q3 =~= seq![r3, r2, r1]);
    assert(q3.drop_last() =~= seq![r3, r2]);
    assert(q3.drop_last().drop_last() =~= seq![r3]);
}

/// Overflow drop policy: a push into a full queue is a no-op, keeping the
/// oldest entries.
pub proof fn lemma_queue_overflow_drops(q: Seq<Seq<u8>>, r: Seq<u8>)
    requires
        q.len() >= QUEUE_CAPACITY,
    ensures
        queue_after_push(q, r) == q,
{
}

/// The telemetry endpoint state: the pending report queue and at most one
/// pending application request.
pub struct RaceTelemetryClass {
    app_req: Option<AppRequest>,
    reports: ReportQueue,
}

impl RaceTelemetryClass {
    /// The queued reports, next-to-send last.
    pub closed spec fn spec_queue(self) -> Seq<Seq<u8>> {
        self.reports@
    }

    /// The pending application request, if any.
    pub closed spec fn spec_app_req(self) -> Option<AppRequest> {
        self.app_req
    }

    /// An idle endpoint: nothing queued, nothing requested.
    pub fn new() -> (r: RaceTelemetryClass)
        ensures
            r.spec_queue() == Seq::<Seq<u8>>::empty(),
            r.spec_app_req() is None,
    {
        RaceTelemetryClass { app_req: None, reports: ReportQueue::new() }
    }

    /// Enqueues the reset sentinel, telling the host that the counters were
    /// reset.
    pub fn send_reset(&mut self)
        ensures
            final(self).spec_queue() == queue_after_push(old(self).spec_queue(), reset_report()),
            final(self).spec_app_req() == old(self).spec_app_req(),
    {
        let report: [u8; 8] = [0xff, 0xff, 0xff, 0xff, 0xff, 0xff, 0xff, 0xff];
        assert(report@ =~= reset_report());
        let _ = self.reports.push_front(report);
    }

    /// Encodes one track's statistics into a report and enqueues it.
    pub fn push_track_stats(&mut self, stats: TrackStats)
        requires
            stats.wf(),
        ensures
            final(self).spec_queue() == queue_after_push(
                old(self).spec_queue(),
                stats_report(stats.spec_track() as u8, stats.spec_durations()),
            ),
            final(self).spec_app_req() == old(self).spec_app_req(),
    {
        let track = stats.track() as u8;
        let laps = stats.laps();
        let last_ms: u64 = match stats.last() {
            Some(dur) => dur.to_millis(),
            None => 0,
        };
        let best = stats.best();
        proof {
            if stats.spec_durations().len() > 0 {
                lemma_seq_min_is_min(stats.spec_durations());
                lemma_min_unique(
                    stats.spec_durations(),
                    seq_min(stats.spec_durations()),
                    best.unwrap().spec_micros(),
                );
            }
        }
        let best_ms: u64 = match best {
            Some(dur) => dur.to_millis(),
            None => 0,
        };
        let report: [u8; 8] = [
            0xfe,
            track,
            ((laps / 256) % 256) as u8,
            (laps % 256) as u8,
            ((last_ms / 256) % 256) as u8,
            (last_ms % 256) as u8,
            ((best_ms / 256) % 256) as u8,
            (best_ms % 256) as u8,
        ];
        assert(report@ =~= stats_report(stats.spec_track() as u8, stats.spec_durations()));
        let _ = self.reports.push_front(report);
    }

    /// Takes the pending application request, clearing it.
    pub fn app_req(&mut self) -> (r: Option<AppRequest>)
        ensures
            r == old(self).spec_app_req(),
            final(self).spec_app_req() is None,
            final(self).spec_queue() == old(self).spec_queue(),
    {
        let r = self.app_req;
        self.app_req = None;
        r
    }

    /// Dequeues the oldest pending report for transmission, or the idle
    /// report when nothing is queued.
    pub fn send_report(&mut self) -> (r: [u8; 8])
        ensures
            old(self).spec_queue().len() == 0 ==> r@ == idle_report() && final(self).spec_queue()
                == old(self).spec_queue(),
            old(self).spec_queue().len() > 0 ==> r@ == old(self).spec_queue().last()
                && final(self).spec_queue() == old(self).spec_queue().drop_last(),
            final(self).spec_app_req() == old(self).spec_app_req(),
    {
        match self.reports.pop_back() {
            Some(report) => report,
            None => {
                let idle: [u8; 8] = [0, 0, 0, 0, 0, 0, 0, 0];
                assert(idle@ =~= idle_report());
                idle
            },
        }
    }

    /// One transport-ready step: the report to transmit (oldest pending, or
    /// idle) together with the pending application request, now cleared.
    pub fn poll(&mut self) -> (r: ([u8; 8], Option<AppRequest>))
        ensures
            old(self).spec_queue().len() == 0 ==> r.0@ == idle_report() && final(self).spec_queue()
                == old(self).spec_queue(),
            old(self).spec_queue().len() > 0 ==> r.0@ == old(self).spec_queue().last()
                && final(self).spec_queue() == old(self).spec_queue().drop_last(),
            r.1 == old(self).spec_app_req(),
            final(self).spec_app_req() is None,
    {
        let report = self.send_report();
        let req = self.app_req();
        (report, req)
    }

    /// Decodes an inbound vendor control request. The reset code clears the
    /// pending reports and requests a counter reset; the snapshot code
    /// requests a full state dump; anything else is rejected. A new request
    /// overwrites an unconsumed one.
    pub fn control_request(&mut self, request: u8) -> (accepted: bool)
        ensures
            request == REQUEST_RESET ==> accepted && final(self).spec_queue()
                == Seq::<Seq<u8>>::empty() && final(self).spec_app_req() == Some(
                AppRequest::ResetCounter,
            ),
            request == REQUEST_SNAPSHOT ==> accepted
                && final(self).spec_queue() == old(self).spec_queue()
                && final(self).spec_app_req() == Some(AppRequest::SendCounterState),
            request != REQUEST_RESET && request != REQUEST_SNAPSHOT ==> !accepted
                && final(self).spec_queue() == old(self).spec_queue()
                && final(self).spec_app_req() == old(self).spec_app_req(),
    {
        if request == REQUEST_RESET {
            self.reports.clear();
            self.app_req = Some(AppRequest::ResetCounter);
            true
        } else if request == REQUEST_SNAPSHOT {
            self.app_req = Some(AppRequest::SendCounterState);
            true
        } else {
            false
        }
    }
}

} // verus!
