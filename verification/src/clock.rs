//! Start-time tracking and cross-stream synchronization.
//!
//! Each capture stream records the instant its first sample arrived in a
//! write-once slot.  Once both slots are populated, the resolver turns
//! the pair into a `SyncAdjustment`: the magnitude of the gap between
//! the two start instants, and which encoder invocation must compensate
//! for it.  Instants are whole milliseconds on one monotone clock; the
//! caller supplies them.

use vstd::prelude::*;

verus! {

/// A write-once slot for the instant a stream's first sample arrived.
///
/// Once set it is never overwritten; an empty slot means "not yet
/// captured".
pub struct StartTimeSlot {
    first_sample_ms: Option<u64>,
}

impl StartTimeSlot {
    /// The recorded instant, if any.
    pub closed spec fn recorded(self) -> Option<u64> {
        self.first_sample_ms
    }

    /// An empty slot.
    pub fn new() -> (r: StartTimeSlot)
        ensures
            r.recorded() is None,
    {
        StartTimeSlot { first_sample_ms: Option::None }
    }

    /// Record the first-sample instant.  Only the first write takes:
    /// a slot that already holds a value is left as it is.
    pub fn record(&mut self, now_ms: u64)
        ensures
            old(self).recorded() is None ==> final(self).recorded() == Some(now_ms),
            old(self).recorded() is Some ==> final(self).recorded() == old(self).recorded(),
    {
        if self.first_sample_ms.is_none() {
            self.first_sample_ms = Option::Some(now_ms);
        }
    }

    /// Read the slot.
    pub fn get(&self) -> (r: Option<u64>)
        ensures
            r == self.recorded(),
    {
        self.first_sample_ms
    }
}

/// Which encoder invocation must be shifted to line the streams up, and
/// by how many milliseconds.
#[derive(Clone, Copy, Debug, PartialEq, Eq, Structural)]
pub enum SyncAdjustment {
    /// The two streams started at the same instant: no compensation.
    Aligned,
    /// Audio started later: the video invocation receives the offset.
    OffsetVideo { millis: u64 },
    /// Video started later: the audio invocation receives the offset.
    OffsetAudio { millis: u64 },
}

/// The adjustment owed for a given pair of start instants.
pub open spec fn spec_adjustment(audio_start_ms: u64, video_start_ms: u64) -> SyncAdjustment {
    if audio_start_ms == video_start_ms {
        SyncAdjustment::Aligned
    } else if audio_start_ms > video_start_ms {
        SyncAdjustment::OffsetVideo { millis: (audio_start_ms - video_start_ms) as u64 }
    } else {
        SyncAdjustment::OffsetAudio { millis: (video_start_ms - audio_start_ms) as u64 }
    }
}

/// Compute the one-shot synchronization adjustment from the two
/// first-sample instants.
pub fn compute_adjustment(audio_start_ms: u64, video_start_ms: u64) -> (r: SyncAdjustment)
    ensures
        r == spec_adjustment(audio_start_ms, video_start_ms),
{
    if audio_start_ms == video_start_ms {
        SyncAdjustment::Aligned
    } else if audio_start_ms > video_start_ms {
        SyncAdjustment::OffsetVideo { millis: audio_start_ms - video_start_ms }
    } else {
        SyncAdjustment::OffsetAudio { millis: video_start_ms - audio_start_ms }
    }
}

/// The resolver's polling decision: the pair of start instants, as soon
/// as both slots are populated, and nothing before.
pub fn both_recorded(audio: &StartTimeSlot, video: &StartTimeSlot) -> (r: Option<(u64, u64)>)
    ensures
        (audio.recorded() is Some && video.recorded() is Some) <==> r is Some,
        r matches Some(pair) ==> Some(pair.0) == audio.recorded() && Some(pair.1)
            == video.recorded(),
{
    match (audio.get(), video.get()) {
        (Option::Some(a), Option::Some(v)) => Option::Some((a, v)),
        _ => Option::None,
    }
}

/// The adjustment never shifts a stream when the start instants agree,
/// and when they disagree it names exactly one stream, with the exact
/// positive gap.
pub proof fn lemma_adjustment_is_one_sided(audio_start_ms: u64, video_start_ms: u64)
    ensures
        audio_start_ms == video_start_ms <==> spec_adjustment(audio_start_ms, video_start_ms)
            == SyncAdjustment::Aligned,
        spec_adjustment(audio_start_ms, video_start_ms) matches SyncAdjustment::OffsetVideo {
            millis,
        } ==> millis == audio_start_ms - video_start_ms && millis > 0,
        spec_adjustment(audio_start_ms, video_start_ms) matches SyncAdjustment::OffsetAudio {
            millis,
        } ==> millis == video_start_ms - audio_start_ms && millis > 0,
{
}

} // verus!
