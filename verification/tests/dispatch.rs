use wzhooh::process_app_req;
use wzhooh::process_io_event;
use wzhooh::scan_events;
use wzhooh::AppRequest;
use wzhooh::Button;
use wzhooh::Buttons;
use wzhooh::Display;
use wzhooh::Instant;
use wzhooh::IoEvent;
use wzhooh::LapCounter;
use wzhooh::RaceTelemetryClass;
use wzhooh::Sensors;

fn at_ms(ms: u64) -> Instant {
    Instant::from_ticks(ms * 1000)
}

const TABLE: [u8; 10] = [0x3f, 0x06, 0x5b, 0x4f, 0x66, 0x6d, 0x7d, 0x07, 0x7f, 0x6f];

fn shown_digit(display: &Display) -> Option<usize> {
    let mut byte = 0u8;
    for (i, lit) in display.segments().iter().enumerate() {
        if *lit {
            byte |= 1 << i;
        }
    }
    TABLE.iter().position(|p| *p == byte)
}

#[test]
fn scan_orders_tracks_then_buttons() {
    let mut sensors = Sensors::new();
    let mut buttons = Buttons::new();
    let now = at_ms(5);
    sensors.set_detected(2);
    sensors.set_detected(0);
    buttons.set_pressed(Button::B);
    let events = scan_events(&mut sensors, &mut buttons, now);
    assert_eq!(
        events,
        vec![
            IoEvent::CarDetected(0, now),
            IoEvent::CarDetected(2, now),
            IoEvent::ButtonPressed(Button::B),
        ]
    );
    // Every latched edge was consumed.
    let events = scan_events(&mut sensors, &mut buttons, at_ms(6));
    assert!(events.is_empty());
}

#[test]
fn sensors_latch_until_consumed() {
    let mut sensors = Sensors::new();
    assert!(!sensors.is_car_detected(1));
    sensors.set_detected(1);
    sensors.set_detected(1);
    assert!(sensors.is_car_detected(1));
    assert!(!sensors.is_car_detected(1));
    assert!(!sensors.is_car_detected(0));
}

#[test]
fn buttons_latch_until_consumed() {
    let mut buttons = Buttons::new();
    assert!(!buttons.is_pressed(Button::C));
    buttons.set_pressed(Button::C);
    assert!(buttons.is_pressed(Button::C));
    assert!(!buttons.is_pressed(Button::C));
}

#[test]
fn button_indices_are_fixed() {
    assert_eq!(Button::A.index(), 0);
    assert_eq!(Button::B.index(), 1);
    assert_eq!(Button::C.index(), 2);
}

#[test]
fn car_detection_propagates_to_display_and_telemetry() {
    let mut counter = LapCounter::default();
    let mut display = Display::new();
    let mut telemetry = RaceTelemetryClass::new();
    counter.reset(at_ms(0));

    let req = process_io_event(
        &mut counter,
        &mut display,
        &mut telemetry,
        IoEvent::CarDetected(0, at_ms(150)),
    );
    assert!(req.is_none());
    assert_eq!(counter.stats(0).unwrap().laps(), 1);

    // The display cache for track 0 now shows one lap.
    display.animate();
    assert_eq!(shown_digit(&display), Some(1));

    // The telemetry queue holds the track's fresh report.
    let (report, _) = telemetry.poll();
    assert_eq!(report, [0xfe, 0x00, 0x00, 0x01, 0x00, 0x96, 0x00, 0x96]);
}

#[test]
fn filtered_detection_still_reports_current_state() {
    let mut counter = LapCounter::default();
    let mut display = Display::new();
    let mut telemetry = RaceTelemetryClass::new();
    counter.reset(at_ms(0));

    process_io_event(
        &mut counter,
        &mut display,
        &mut telemetry,
        IoEvent::CarDetected(1, at_ms(50)),
    );
    assert_eq!(counter.stats(1).unwrap().laps(), 0);
    let (report, _) = telemetry.poll();
    assert_eq!(report, [0xfe, 0x01, 0x00, 0x00, 0x00, 0x00, 0x00, 0x00]);
}

#[test]
fn out_of_range_detection_changes_nothing() {
    let mut counter = LapCounter::default();
    let mut display = Display::new();
    let mut telemetry = RaceTelemetryClass::new();
    counter.reset(at_ms(0));

    let req = process_io_event(
        &mut counter,
        &mut display,
        &mut telemetry,
        IoEvent::CarDetected(9, at_ms(150)),
    );
    assert!(req.is_none());
    let (report, _) = telemetry.poll();
    assert_eq!(report, [0u8; 8]);
}

#[test]
fn button_press_asks_for_a_reset() {
    let mut counter = LapCounter::default();
    let mut display = Display::new();
    let mut telemetry = RaceTelemetryClass::new();
    counter.reset(at_ms(0));

    let req = process_io_event(
        &mut counter,
        &mut display,
        &mut telemetry,
        IoEvent::ButtonPressed(Button::A),
    );
    assert_eq!(req, Some(AppRequest::ResetCounter));
    // The press itself changes nothing until the request is processed.
    let (report, _) = telemetry.poll();
    assert_eq!(report, [0u8; 8]);
}

#[test]
fn reset_request_resets_everything_and_queues_sentinel() {
    let mut counter = LapCounter::default();
    let mut display = Display::new();
    let mut telemetry = RaceTelemetryClass::new();
    counter.reset(at_ms(0));
    counter.record_lap(0, at_ms(150)).unwrap();
    display.set_track_laps(0, 1);

    process_app_req(
        &mut counter,
        &mut display,
        &mut telemetry,
        AppRequest::ResetCounter,
        at_ms(1000),
    );
    assert_eq!(counter.stats(0).unwrap().laps(), 0);
    assert!(display.segments().iter().all(|s| !s));
    display.animate();
    assert_eq!(shown_digit(&display), Some(0));
    let (report, _) = telemetry.poll();
    assert_eq!(report, [0xff; 8]);
}

#[test]
fn snapshot_request_sends_sentinel_then_every_track() {
    let mut counter = LapCounter::default();
    let mut display = Display::new();
    let mut telemetry = RaceTelemetryClass::new();
    counter.reset(at_ms(0));
    counter.record_lap(0, at_ms(150)).unwrap();

    process_app_req(
        &mut counter,
        &mut display,
        &mut telemetry,
        AppRequest::SendCounterState,
        at_ms(2000),
    );
    let (sentinel, _) = telemetry.poll();
    assert_eq!(sentinel, [0xff; 8]);
    let (track0, _) = telemetry.poll();
    assert_eq!(track0, [0xfe, 0x00, 0x00, 0x01, 0x00, 0x96, 0x00, 0x96]);
    let (track1, _) = telemetry.poll();
    assert_eq!(track1, [0xfe, 0x01, 0x00, 0x00, 0x00, 0x00, 0x00, 0x00]);
    let (track2, _) = telemetry.poll();
    assert_eq!(track2, [0xfe, 0x02, 0x00, 0x00, 0x00, 0x00, 0x00, 0x00]);
    // The snapshot does not touch the counter itself.
    assert_eq!(counter.stats(0).unwrap().laps(), 1);
}
