//! Event-driven lap-timing engine for a multi-lane slot-car track:
//! a debounced lap counter with per-lane statistics, a time-multiplexed
//! seven-segment display state machine, a bounded binary telemetry
//! queue, and the event dispatch logic that ties them together.

pub mod bounded;
pub mod counter;
pub mod dispatch;
pub mod display;
pub mod io;
pub mod telemetry;
pub mod time;

pub use bounded::BoundedVec;
pub use bounded::ReportQueue;
pub use bounded::HISTORY_CAPACITY;
pub use bounded::QUEUE_CAPACITY;
pub use bounded::REPORT_SIZE;
pub use counter::DEBOUNCE_MICROS;
pub use counter::LapCounter;
pub use counter::TrackStats;
pub use dispatch::process_app_req;
pub use dispatch::process_io_event;
pub use dispatch::scan_events;
pub use display::Display;
pub use display::digit_pattern;
pub use io::Button;
pub use io::Buttons;
pub use io::IoEvent;
pub use io::Sensors;
pub use io::Track;
pub use io::TRACKS;
pub use telemetry::AppRequest;
pub use telemetry::RaceTelemetryClass;
pub use time::Duration;
pub use time::Instant;
