//! The event dispatch logic binding sensors and buttons to the counter, the
//! display and the telemetry endpoint.
//!
//! Interrupt handlers stay O(1): the sensor-bank handler only turns latched
//! edges into typed events, and the event-processing step applies one event
//! to the three components. The surrounding runtime owns the queues, the
//! priorities and the locks; every decision made under a lock is here.

use vstd::prelude::*;

use crate::counter::LapCounter;
use crate::counter::after_record;
use crate::counter::durations_of;
use crate::counter::laps_of;
use crate::counter::reset_view;
use crate::display::Display;
use crate::display::pattern_bits;
use crate::io::Button;
use crate::io::Buttons;
use crate::io::IoEvent;
use crate::io::Sensors;
use crate::io::TRACKS;
use crate::telemetry::AppRequest;
use crate::telemetry::RaceTelemetryClass;
use crate::telemetry::queue_after_push;
use crate::telemetry::reset_report;
use crate::telemetry::stats_report;
use crate::time::Instant;

verus! {

/// The events one interrupt scan produces from the latched flags: a car
/// detection per pending sensor, in track order, then a press per pending
/// button, in button order, all detections stamped `now`.
pub open spec fn scanned_events(sensors: Seq<bool>, buttons: Seq<bool>, now: Instant) -> Seq<
    IoEvent,
> {
    let after_s0 = if sensors[0] {
        Seq::empty().push(IoEvent::CarDetected(0usize, now))
    } else {
        Seq::empty()
    };
    let after_s1 = if sensors[1] {
        after_s0.push(IoEvent::CarDetected(1usize, now))
    } else {
        after_s0
    };
    let after_s2 = if sensors[2] {
        after_s1.push(IoEvent::CarDetected(2usize, now))
    } else {
        after_s1
    };
    let after_b0 = if buttons[0] {
        after_s2.push(IoEvent::ButtonPressed(Button::A))
    } else {
        after_s2
    };
    let after_b1 = if buttons[1] {
        after_b0.push(IoEvent::ButtonPressed(Button::B))
    } else {
        after_b0
    };
    if buttons[2] {
        after_b1.push(IoEvent::ButtonPressed(Button::C))
    } else {
        after_b1
    }
}

/// The report queue after a snapshot burst: the reset sentinel, then one
/// stats report per track, in track order.
pub open spec fn snapshot_queue(q: Seq<Seq<u8>>, m: Seq<Seq<u64>>) -> Seq<Seq<u8>> {
    queue_after_push(
        queue_after_push(
            queue_after_push(
                queue_after_push(q, reset_report()),
                stats_report(0, durations_of(m[0])),
            ),
            stats_report(1, durations_of(m[1])),
        ),
        stats_report(2, durations_of(m[2])),
    )
}

/// The sensor-bank interrupt, bottom half of detection: consumes every
/// latched sensor and button edge and returns the typed events to enqueue,
/// detections stamped with the scan time.
pub fn scan_events(sensors: &mut Sensors, buttons: &mut Buttons, now: Instant) -> (evs: Vec<
    IoEvent,
>)
    ensures
        final(sensors).spec_pending() =~= seq![false, false, false],
        final(buttons).spec_pending() =~= seq![false, false, false],
        evs@ == scanned_events(old(sensors).spec_pending(), old(buttons).spec_pending(), now),
{
    proof {
        crate::io::lemma_sensors_pending_len(*old(sensors));
        crate::io::lemma_buttons_pending_len(*old(buttons));
    }
    let mut evs: Vec<IoEvent> = Vec::new();
    if sensors.is_car_detected(0) {
        evs.push(IoEvent::CarDetected(0, now));
    }
    if sensors.is_car_detected(1) {
        evs.push(IoEvent::CarDetected(1, now));
    }
    if sensors.is_car_detected(2) {
        evs.push(IoEvent::CarDetected(2, now));
    }
    if buttons.is_pressed(Button::A) {
        evs.push(IoEvent::ButtonPressed(Button::A));
    }
    if buttons.is_pressed(Button::B) {
        evs.push(IoEvent::ButtonPressed(Button::B));
    }
    if buttons.is_pressed(Button::C) {
        evs.push(IoEvent::ButtonPressed(Button::C));
    }
    evs
}

/// Applies one input event. A detection records the lap and propagates the
/// track's fresh statistics to the display cache and the telemetry queue; a
/// button press decides nothing here and hands back a reset request for the
/// application task.
pub fn process_io_event(
    counter: &mut LapCounter,
    display: &mut Display,
    telemetry: &mut RaceTelemetryClass,
    ev: IoEvent,
) -> (r: Option<AppRequest>)
    requires
        old(counter).wf(),
    ensures
        final(counter).wf(),
        match ev {
            IoEvent::ButtonPressed(_) => {
                &&& r == Some(AppRequest::ResetCounter)
                &&& final(counter)@ == old(counter)@
                &&& *final(display) == *old(display)
                &&& *final(telemetry) == *old(telemetry)
            },
            IoEvent::CarDetected(track, ts) => {
                &&& r is None
                &&& track < TRACKS ==> {
                    let newh = after_record(old(counter)@[track as int], ts.spec_ticks());
                    &&& final(counter)@[track as int] == newh
                    &&& (forall|t: int|
                        0 <= t < TRACKS && t != track ==> final(counter)@[t] == old(counter)@[t])
                    &&& final(display).spec_laps() =~= old(display).spec_laps().update(
                        track as int,
                        laps_of(newh) as usize,
                    )
                    &&& final(display).spec_frame() == old(display).spec_frame()
                    &&& final(display).spec_commons() == old(display).spec_commons()
                    &&& final(display).spec_segments() == old(display).spec_segments()
                    &&& final(telemetry).spec_queue() == queue_after_push(
                        old(telemetry).spec_queue(),
                        stats_report(track as u8, durations_of(newh)),
                    )
                    &&& final(telemetry).spec_app_req() == old(telemetry).spec_app_req()
                }
                &&& track >= TRACKS ==> {
                    &&& final(counter)@ == old(counter)@
                    &&& *final(display) == *old(display)
                    &&& *final(telemetry) == *old(telemetry)
                }
            },
        },
{
    match ev {
        IoEvent::CarDetected(track, ts) => {
            if let Some(stats) = counter.record_lap(track, ts) {
                display.set_track_laps(track, stats.laps());
                telemetry.push_track_stats(stats);
            }
            None
        },
        IoEvent::ButtonPressed(_) => Some(AppRequest::ResetCounter),
    }
}

/// Applies one application request. A reset re-anchors the counter at `now`,
/// blanks the display and queues the reset sentinel; a snapshot request
/// queues the sentinel followed by every track's current statistics.
pub fn process_app_req(
    counter: &mut LapCounter,
    display: &mut Display,
    telemetry: &mut RaceTelemetryClass,
    req: AppRequest,
    now: Instant,
)
    requires
        old(counter).wf(),
    ensures
        final(counter).wf(),
        match req {
            AppRequest::ResetCounter => {
                &&& final(counter)@ =~= reset_view(now.spec_ticks())
                &&& final(display).spec_laps() =~= seq![0usize, 0usize, 0usize]
                &&& final(display).spec_segments() =~= pattern_bits(0)
                &&& final(display).spec_frame() == old(display).spec_frame()
                &&& final(display).spec_commons() == old(display).spec_commons()
                &&& final(telemetry).spec_queue() == queue_after_push(
                    old(telemetry).spec_queue(),
                    reset_report(),
                )
                &&& final(telemetry).spec_app_req() == old(telemetry).spec_app_req()
            },
            AppRequest::SendCounterState => {
                &&& final(counter)@ == old(counter)@
                &&& *final(display) == *old(display)
                &&& final(telemetry).spec_queue() == snapshot_queue(
                    old(telemetry).spec_queue(),
                    old(counter)@,
                )
                &&& final(telemetry).spec_app_req() == old(telemetry).spec_app_req()
            },
        },
{
    match req {
        AppRequest::ResetCounter => {
            counter.reset(now);
            display.reset();
            telemetry.send_reset();
        },
        AppRequest::SendCounterState => {
            telemetry.send_reset();
            if let Some(stats) = counter.stats(0) {
                telemetry.push_track_stats(stats);
            }
            if let Some(stats) = counter.stats(1) {
                telemetry.push_track_stats(stats);
            }
            if let Some(stats) = counter.stats(2) {
                telemetry.push_track_stats(stats);
            }
        },
    }
}

} // verus!
