use voice_assistant::vad::{segment_action, SegmentAction, SpeechEdge, SpeechTracker};

#[test]
fn tracker_reports_edges() {
    let mut tracker = SpeechTracker::new();
    assert_eq!(tracker.observe(false), (false, SpeechEdge::Unchanged));
    assert_eq!(tracker.observe(true), (true, SpeechEdge::Started));
    assert_eq!(tracker.observe(true), (true, SpeechEdge::Unchanged));
    assert_eq!(tracker.observe(false), (false, SpeechEdge::Ended));
    assert!(!tracker.was_speaking);
}

#[test]
fn only_segments_with_samples_are_sent() {
    assert_eq!(segment_action(false, 0), SegmentAction::Nothing);
    assert_eq!(segment_action(false, 10), SegmentAction::Nothing);
    assert_eq!(segment_action(true, 0), SegmentAction::Discard);
    assert_eq!(segment_action(true, 10), SegmentAction::Send);
}
