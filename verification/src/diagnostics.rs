//! Performance diagnostics: instantaneous frame rate and frame time
//! derived from the last frame's delta, their colour classification,
//! and the report the diagnostics panel renders from.
//!
//! Times are carried as integers: the frame delta in microseconds, the
//! displayed frame time in tenths of a millisecond, and the displayed
//! rate in tenths of a frame per second.

use vstd::prelude::*;

verus! {

/// Colour classification of a diagnostics value.
#[derive(Clone, Copy, Debug, PartialEq, Eq, Structural)]
pub enum Severity {
    Green,
    Yellow,
    Red,
}

/// Frame rates at or above this (in tenths of a frame per second) are
/// green.
pub const FPS_GREEN_MIN_TENTHS: u64 = 600;

/// Frame rates at or above this (in tenths of a frame per second) are
/// yellow; below is red.
pub const FPS_YELLOW_MIN_TENTHS: u64 = 300;

/// Frame times at or below this (in tenths of a millisecond) are green.
pub const FRAME_TIME_GREEN_MAX_TENTHS: u64 = 167;

/// Frame times at or below this (in tenths of a millisecond) are
/// yellow; above is red.
pub const FRAME_TIME_YELLOW_MAX_TENTHS: u64 = 333;

/// Classification of a frame rate, in tenths of a frame per second.
pub open spec fn spec_classify_fps(fps_tenths: int) -> Severity {
    if fps_tenths >= FPS_GREEN_MIN_TENTHS {
        Severity::Green
    } else if fps_tenths >= FPS_YELLOW_MIN_TENTHS {
        Severity::Yellow
    } else {
        Severity::Red
    }
}

/// Classification of a frame time, in tenths of a millisecond; the
/// thresholds themselves are inclusive.
pub open spec fn spec_classify_frame_time(frame_time_tenths: int) -> Severity {
    if frame_time_tenths <= FRAME_TIME_GREEN_MAX_TENTHS {
        Severity::Green
    } else if frame_time_tenths <= FRAME_TIME_YELLOW_MAX_TENTHS {
        Severity::Yellow
    } else {
        Severity::Red
    }
}

/// Classify a frame rate given in tenths of a frame per second:
/// green at or above sixty frames per second, yellow at or above
/// thirty, red below.
pub fn classify_fps(fps_tenths: u64) -> (r: Severity)
    ensures
        r == spec_classify_fps(fps_tenths as int),
{
    if fps_tenths >= FPS_GREEN_MIN_TENTHS {
        Severity::Green
    } else if fps_tenths >= FPS_YELLOW_MIN_TENTHS {
        Severity::Yellow
    } else {
        Severity::Red
    }
}

/// Classify a frame time given in tenths of a millisecond: green up to
/// and including 16.7 ms, yellow up to and including 33.3 ms, red
/// above.
pub fn classify_frame_time(frame_time_tenths: u64) -> (r: Severity)
    ensures
        r == spec_classify_frame_time(frame_time_tenths as int),
{
    if frame_time_tenths <= FRAME_TIME_GREEN_MAX_TENTHS {
        Severity::Green
    } else if frame_time_tenths <= FRAME_TIME_YELLOW_MAX_TENTHS {
        Severity::Yellow
    } else {
        Severity::Red
    }
}

/// What the diagnostics panel shows for one frame: either a fallback
/// because no time source was available, or the derived metrics.
#[derive(Clone, Copy, Debug, PartialEq, Eq, Structural)]
pub enum DiagnosticsReport {
    /// No time source this frame: the panel renders a fallback message
    /// instead of dividing by zero or failing the frame.
    TimeUnavailable,
    Metrics {
        /// Instantaneous frame rate, tenths of a frame per second.
        fps_tenths: u64,
        /// Frame time, tenths of a millisecond.
        frame_time_tenths: u64,
        fps_severity: Severity,
        frame_time_severity: Severity,
        /// Total number of live objects.
        total_entities: u64,
    },
}

/// Derive the diagnostics report from the last frame's delta (in
/// microseconds, if a time source exists) and the live-object count.
///
/// A zero delta stands for an unmeasurably fast frame: the rate
/// saturates at the counter's maximum and both classifications are
/// green, mirroring an unbounded frame rate.
pub fn diagnostics_report(delta_us: Option<u64>, total_entities: u64) -> (r: DiagnosticsReport)
    ensures
        delta_us is None ==> r is TimeUnavailable,
        delta_us matches Some(d) ==> (d > 0 ==> r == (DiagnosticsReport::Metrics {
            fps_tenths: (10_000_000u64 / d) as u64,
            frame_time_tenths: (d / 100) as u64,
            fps_severity: spec_classify_fps(10_000_000 as int / d as int),
            frame_time_severity: spec_classify_frame_time(d as int / 100),
            total_entities,
        })),
        delta_us matches Some(d) ==> (d == 0 ==> r == (DiagnosticsReport::Metrics {
            fps_tenths: u64::MAX,
            frame_time_tenths: 0u64,
            fps_severity: Severity::Green,
            frame_time_severity: Severity::Green,
            total_entities,
        })),
{
    match delta_us {
        None => DiagnosticsReport::TimeUnavailable,
        Some(d) => {
            if d == 0 {
                DiagnosticsReport::Metrics {
                    fps_tenths: u64::MAX,
                    frame_time_tenths: 0,
                    fps_severity: Severity::Green,
                    frame_time_severity: Severity::Green,
                    total_entities,
                }
            } else {
                let fps_tenths: u64 = 10_000_000 / d;
                let frame_time_tenths: u64 = d / 100;
                DiagnosticsReport::Metrics {
                    fps_tenths,
                    frame_time_tenths,
                    fps_severity: classify_fps(fps_tenths),
                    frame_time_severity: classify_frame_time(frame_time_tenths),
                    total_entities,
                }
            }
        },
    }
}

} // verus!
