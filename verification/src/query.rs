//! Progress and seek: the query surface that reads shared playback state
//! without going through the command channel.
//!
//! The device's playback position and its emptiness are facts the caller
//! reads from the sink itself; the engine contributes the recorded track
//! duration and the rules that derive the answers.

use vstd::prelude::*;

use crate::engine::Engine;

verus! {

/// Answer of a progress query.
#[derive(Debug, Clone, Copy)]
pub struct PlaybackProgress {
    /// Current playback position in milliseconds.
    pub position_ms: u64,
    /// Total duration of the current track in milliseconds; 0 when unknown.
    pub duration_ms: u64,
    /// True exactly when playback started and then drained: the sink is
    /// empty and the position is non-zero. A sink that never started is not
    /// "ended".
    pub is_ended: bool,
}

/// Answer of a seek request.
#[derive(Debug, Clone, Copy)]
pub struct SeekResult {
    /// Whether the seek was applied to the sink.
    pub success: bool,
    /// Whether the caller should advance to the next track instead: the
    /// target lies past the known duration.
    pub should_play_next: bool,
}

/// How a seek request is handled.
#[derive(Debug, Clone, Copy)]
pub enum SeekDecision {
    /// The target exceeds the known duration: nothing is done to the sink
    /// and the caller is told to advance to the next track.
    AdvancePastEnd,
    /// Apply the seek to the sink's playback cursor at this position.
    Apply(u64),
}

/// The progress derived from the recorded duration and what the device
/// reports.
pub open spec fn spec_progress(duration_ms: int, position_ms: int, sink_empty: bool) -> (int, int, bool) {
    (position_ms, duration_ms, sink_empty && position_ms > 0)
}

/// A seek to `target_ms` is rejected exactly when the duration is known and
/// the target lies past it.
pub open spec fn spec_seek_past_end(duration_ms: int, target_ms: int) -> bool {
    target_ms > duration_ms && duration_ms > 0
}

impl Engine {
    /// Reads current progress. `position_ms` and `sink_empty` are what the
    /// device sink reports at this moment; the query has no side effect.
    pub fn query_progress(&self, position_ms: u64, sink_empty: bool) -> (p: PlaybackProgress)
        ensures
            (p.position_ms as int, p.duration_ms as int, p.is_ended) == spec_progress(
                self@.duration_ms,
                position_ms as int,
                sink_empty,
            ),
    {
        PlaybackProgress {
            position_ms,
            duration_ms: self.duration_ms,
            is_ended: sink_empty && position_ms > 0,
        }
    }

    /// Validates a seek target against the recorded duration, before the sink
    /// is touched. Past the known end nothing is applied; otherwise the
    /// caller moves the sink's cursor to the target.
    pub fn decide_seek(&self, target_ms: u64) -> (d: SeekDecision)
        ensures
            d == if spec_seek_past_end(self@.duration_ms, target_ms as int) {
                SeekDecision::AdvancePastEnd
            } else {
                SeekDecision::Apply(target_ms)
            },
    {
        if self.duration_ms > 0 && target_ms > self.duration_ms {
            SeekDecision::AdvancePastEnd
        } else {
            SeekDecision::Apply(target_ms)
        }
    }
}

/// The answer reported for a handled seek: a rejected seek tells the caller
/// to advance; an applied one reports success. A seek the device itself
/// refused is surfaced as an error by the caller, not through this type.
pub fn seek_result(rejected: bool) -> (r: SeekResult)
    ensures
        r.success == !rejected,
        r.should_play_next == rejected,
{
    SeekResult { success: !rejected, should_play_next: rejected }
}

} // verus!
