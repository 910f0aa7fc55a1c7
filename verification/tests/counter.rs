use wzhooh::Duration;
use wzhooh::Instant;
use wzhooh::LapCounter;

fn at_ms(ms: u64) -> Instant {
    Instant::from_ticks(ms * 1000)
}

fn ms(ms: u64) -> u64 {
    ms * 1000
}

#[test]
fn end_to_end_lap_sequence() {
    let mut counter = LapCounter::default();
    counter.reset(at_ms(0));

    // Within the debounce window: filtered as noise, stats still returned.
    let stats = counter.record_lap(0, at_ms(50)).unwrap();
    assert_eq!(stats.laps(), 0);
    assert!(stats.last().is_none());
    assert!(stats.best().is_none());

    // Beyond the window: accepted.
    let stats = counter.record_lap(0, at_ms(150)).unwrap();
    assert_eq!(stats.laps(), 1);
    assert_eq!(stats.last().unwrap().micros(), ms(150));
    assert_eq!(stats.best().unwrap().micros(), ms(150));

    let stats = counter.record_lap(0, at_ms(500)).unwrap();
    assert_eq!(stats.laps(), 2);
    assert_eq!(stats.last().unwrap().micros(), ms(350));
    assert_eq!(stats.best().unwrap().micros(), ms(150));
}

#[test]
fn detections_within_window_record_one_lap() {
    let mut counter = LapCounter::default();
    counter.reset(at_ms(0));
    let stats = counter.record_lap(1, at_ms(150)).unwrap();
    assert_eq!(stats.laps(), 1);
    // Exactly the window after the last entry: still noise (must exceed it).
    let stats = counter.record_lap(1, at_ms(250)).unwrap();
    assert_eq!(stats.laps(), 1);
    // Chatter right after the lap: filtered too.
    let stats = counter.record_lap(1, at_ms(151)).unwrap();
    assert_eq!(stats.laps(), 1);
}

#[test]
fn detections_beyond_window_record_both() {
    let mut counter = LapCounter::default();
    counter.reset(at_ms(0));
    let stats = counter.record_lap(2, at_ms(150)).unwrap();
    assert_eq!(stats.laps(), 1);
    let stats = counter.record_lap(2, at_ms(251)).unwrap();
    assert_eq!(stats.laps(), 2);
    assert_eq!(stats.last().unwrap().micros(), ms(101));
}

#[test]
fn laps_never_decrease_under_noise() {
    let mut counter = LapCounter::default();
    counter.reset(at_ms(0));
    let times = [30u64, 120, 140, 260, 261, 262, 400, 400, 520];
    let mut prev_laps: usize = 0;
    for t in times {
        let stats = counter.record_lap(0, at_ms(t)).unwrap();
        assert!(stats.laps() >= prev_laps);
        assert!(stats.laps() <= prev_laps + 1);
        prev_laps = stats.laps();
    }
}

#[test]
fn best_is_minimum_of_history() {
    let mut counter = LapCounter::default();
    counter.reset(at_ms(0));
    counter.record_lap(0, at_ms(150)).unwrap(); // lap of 150 ms
    counter.record_lap(0, at_ms(500)).unwrap(); // lap of 350 ms
    counter.record_lap(0, at_ms(620)).unwrap(); // lap of 120 ms
    let stats = counter.record_lap(0, at_ms(1120)).unwrap(); // lap of 500 ms
    assert_eq!(stats.laps(), 4);
    assert_eq!(stats.best().unwrap().micros(), ms(120));
    let durations: Vec<u64> = stats.history().iter().map(|d| d.micros()).collect();
    assert_eq!(durations, vec![ms(150), ms(350), ms(120), ms(500)]);
    assert_eq!(*durations.iter().min().unwrap(), ms(120));
}

#[test]
fn best_equals_last_after_single_lap() {
    let mut counter = LapCounter::default();
    counter.reset(at_ms(0));
    let stats = counter.record_lap(1, at_ms(777)).unwrap();
    assert_eq!(stats.laps(), 1);
    assert_eq!(stats.best().unwrap(), stats.last().unwrap());
}

#[test]
fn reset_is_idempotent() {
    let mut counter = LapCounter::default();
    counter.reset(at_ms(10));
    counter.record_lap(0, at_ms(500)).unwrap();

    counter.reset(at_ms(900));
    let first = counter.stats(0).unwrap();
    counter.reset(at_ms(900));
    let second = counter.stats(0).unwrap();

    assert_eq!(first.track(), second.track());
    assert_eq!(first.laps(), 0);
    assert_eq!(second.laps(), 0);
    assert!(first.last().is_none() && second.last().is_none());
    assert!(first.best().is_none() && second.best().is_none());
    assert!(first.history().is_empty() && second.history().is_empty());
}

#[test]
fn reset_discards_previous_laps_on_every_track() {
    let mut counter = LapCounter::default();
    counter.reset(at_ms(0));
    counter.record_lap(0, at_ms(200)).unwrap();
    counter.record_lap(1, at_ms(300)).unwrap();
    counter.record_lap(2, at_ms(400)).unwrap();
    counter.reset(at_ms(1000));
    for track in 0..3 {
        assert_eq!(counter.stats(track).unwrap().laps(), 0);
    }
}

#[test]
fn first_detection_anchors_an_unreset_track() {
    let mut counter = LapCounter::default();
    let stats = counter.record_lap(0, at_ms(42)).unwrap();
    assert_eq!(stats.laps(), 0);
    let stats = counter.record_lap(0, at_ms(999)).unwrap();
    assert_eq!(stats.laps(), 1);
    assert_eq!(stats.last().unwrap().micros(), ms(957));
}

#[test]
fn out_of_range_track_is_refused() {
    let mut counter = LapCounter::default();
    counter.reset(at_ms(0));
    assert!(counter.record_lap(3, at_ms(500)).is_none());
    assert!(counter.record_lap(usize::MAX, at_ms(500)).is_none());
    assert!(counter.stats(3).is_none());
    assert_eq!(counter.stats(0).unwrap().laps(), 0);
}

#[test]
fn full_history_silently_drops_detections() {
    let mut counter = LapCounter::default();
    counter.reset(at_ms(0));
    // Capacity is 256 timestamps: the anchor plus at most 255 laps.
    for i in 1..300u64 {
        let stats = counter.record_lap(0, at_ms(200 * i)).unwrap();
        assert_eq!(stats.laps(), (i as usize).min(255));
    }
    let stats = counter.stats(0).unwrap();
    assert_eq!(stats.laps(), 255);
    assert_eq!(stats.history().len(), 255);
}

#[test]
fn checked_duration_since_requires_strictly_earlier() {
    let a = Instant::from_ticks(1000);
    let b = Instant::from_ticks(1500);
    assert_eq!(b.checked_duration_since(&a).unwrap().micros(), 500);
    assert!(a.checked_duration_since(&b).is_none());
    assert!(a.checked_duration_since(&a).is_none());
}

#[test]
fn duration_millis_truncate() {
    assert_eq!(Duration::from_micros(1999).to_millis(), 1);
    assert_eq!(Duration::from_micros(1000).to_millis(), 1);
    assert_eq!(Duration::from_micros(999).to_millis(), 0);
    assert_eq!(Duration::from_micros(0).to_millis(), 0);
}
