//! The bridge from voice detection to the pipeline: the live speaking flag,
//! its edges, and the hand-over of finished segments.

use vstd::prelude::*;

verus! {

/// Shortest speech that counts, in milliseconds.
pub const MIN_SPEECH_MS: u32 = 100;

/// Longest segment, in milliseconds.
pub const MAX_SPEECH_MS: u32 = 30000;

/// Samples in one window of the detector.
pub const VAD_WINDOW_SIZE: i32 = 512;

/// Audio that the detector keeps, in seconds.
pub const VAD_BUFFER_SECONDS: u32 = 60;

/// How the speaking state moved with one block of audio.
#[derive(Debug, Clone, Copy, PartialEq, Eq, Structural)]
pub enum SpeechEdge {
    /// Speech began: the time is noted.
    Started,
    /// Speech ended: its duration is logged.
    Ended,
    /// No change.
    Unchanged,
}

/// What is done with the detector's queue of finished segments.
#[derive(Debug, Clone, Copy, PartialEq, Eq, Structural)]
pub enum SegmentAction {
    /// No segment is ready.
    Nothing,
    /// The front segment is empty: it is removed and dropped.
    Discard,
    /// The front segment is removed and offered to the transcription stage
    /// without blocking; it is lost if the channel is full.
    Send,
}

/// Remembers whether the user was speaking at the last block.
#[derive(Debug, Clone, Copy, PartialEq, Eq, Structural)]
pub struct SpeechTracker {
    pub was_speaking: bool,
}

/// The edge between two states of the detector.
pub open spec fn edge_between(was_speaking: bool, is_speech: bool) -> SpeechEdge {
    if is_speech && !was_speaking {
        SpeechEdge::Started
    } else if !is_speech && was_speaking {
        SpeechEdge::Ended
    } else {
        SpeechEdge::Unchanged
    }
}

impl SpeechTracker {
    /// A tracker for a user who has not spoken yet.
    pub fn new() -> (tracker: SpeechTracker)
        ensures
            !tracker.was_speaking,
    {
        SpeechTracker { was_speaking: false }
    }

    /// Takes note of the detector's state after one block. The returned
    /// flag is the new value of the shared speaking flag.
    pub fn observe(&mut self, is_speech: bool) -> (result: (bool, SpeechEdge))
        ensures
            result.0 == is_speech,
            result.1 == edge_between(old(self).was_speaking, is_speech),
            final(self).was_speaking == is_speech,
    {
        let edge = if is_speech && !self.was_speaking {
            SpeechEdge::Started
        } else if !is_speech && self.was_speaking {
            SpeechEdge::Ended
        } else {
            SpeechEdge::Unchanged
        };
        self.was_speaking = is_speech;
        (is_speech, edge)
    }
}

/// Decides what is done with the detector's queue, given whether a segment
/// is ready and how many samples the front segment has.
pub fn segment_action(segment_ready: bool, samples: usize) -> (action: SegmentAction)
    ensures
        action == if !segment_ready {
            SegmentAction::Nothing
        } else if samples == 0 {
            SegmentAction::Discard
        } else {
            SegmentAction::Send
        },
{
    if !segment_ready {
        SegmentAction::Nothing
    } else if samples == 0 {
        SegmentAction::Discard
    } else {
        SegmentAction::Send
    }
}

/// Edges alternate: after a start the next edge is an end, and after an
/// end the next edge is a start.
pub proof fn lemma_edges_alternate(was_speaking: bool, first: bool, second: bool)
    ensures
        edge_between(was_speaking, first) == SpeechEdge::Started ==> edge_between(first, second)
            != SpeechEdge::Started,
        edge_between(was_speaking, first) == SpeechEdge::Ended ==> edge_between(first, second)
            != SpeechEdge::Ended,
{
}

} // verus!
