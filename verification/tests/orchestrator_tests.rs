use voice_assistant::capture::JoinWork;
use voice_assistant::config::InterruptMode;
use voice_assistant::orchestrator::{
    after_grace, after_play, before_sentence, begin_reply, dialogue_reply, dialogue_step,
    finish_reply, history_to_drop, segment_is_usable, should_play, shutdown_steps, stage_flow, stage_runs,
    DialogueAction, JoinAction, PlayFollowUp, Received, ReplyEnd,
    ReplySession, ReplyStep,
    SentenceAction, ShutdownStep, Stage, StageFlow, STAGE_GRACE_MS,
};

#[test]
fn stage_loop_follows_the_shutdown_flag() {
    assert!(stage_runs(false));
    assert!(!stage_runs(true));
    assert_eq!(stage_flow(Received::Item), StageFlow::Process);
    assert_eq!(stage_flow(Received::Closed), StageFlow::Leave);
    assert_eq!(stage_flow(Received::TimedOut), StageFlow::Poll);
}

#[test]
fn empty_segments_are_not_transcribed() {
    assert!(segment_is_usable(1));
    assert!(!segment_is_usable(0));
}

#[test]
fn speaking_user_discards_all_queued_transcripts() {
    let mut queued = vec!["two".to_string(), "three".to_string()];
    let action = dialogue_step(true, "one".to_string(), &mut queued);
    assert_eq!(action, DialogueAction::Discarded(3));
    assert!(queued.is_empty());
    let mut none: Vec<String> = Vec::new();
    assert_eq!(dialogue_step(true, "one".to_string(), &mut none), DialogueAction::Discarded(1));
}

#[test]
fn discard_counts_the_received_transcript_too() {
    for k in 0..5usize {
        let mut queued: Vec<String> = (0..k).map(|i| format!("t{}", i)).collect();
        assert_eq!(dialogue_step(true, "first".to_string(), &mut queued), DialogueAction::Discarded(k + 1));
        assert!(queued.is_empty());
        assert_eq!(dialogue_step(false, "later".to_string(), &mut queued), DialogueAction::Chat("later".to_string()));
    }
}

#[test]
fn silent_user_lets_the_transcript_through() {
    let mut queued = vec!["two".to_string()];
    let action = dialogue_step(false, "one".to_string(), &mut queued);
    assert_eq!(action, DialogueAction::Chat("one".to_string()));
    assert_eq!(queued, vec!["two".to_string()]);
}

#[test]
fn failed_chat_becomes_an_apology() {
    assert_eq!(dialogue_reply(Some("Sure.".to_string())), "Sure.");
    assert_eq!(dialogue_reply(None), "I'm sorry, I encountered an error.");
}

#[test]
fn begin_reply_splits_or_discards() {
    let start = begin_reply(InterruptMode::Always, true, "One. Two.");
    assert!(start.discard_queued && !start.pause_microphone && start.sentences.is_empty());
    let start = begin_reply(InterruptMode::Always, false, "One. Two.");
    assert!(!start.discard_queued && !start.pause_microphone);
    assert_eq!(start.sentences, vec!["One.", "Two."]);
    let start = begin_reply(InterruptMode::Wait, true, "One. Two.");
    assert!(!start.discard_queued && start.pause_microphone);
    assert_eq!(start.sentences, vec!["One.", "Two."]);
    let start = begin_reply(InterruptMode::Wait, false, "   ");
    assert!(start.pause_microphone && start.sentences.is_empty());
}

#[test]
fn before_sentence_orders_its_checks() {
    assert_eq!(before_sentence(InterruptMode::Always, true, true, "  "), SentenceAction::Skip);
    assert_eq!(before_sentence(InterruptMode::Always, true, true, "Hi."), SentenceAction::Abort);
    assert_eq!(before_sentence(InterruptMode::Always, false, true, "Hi."), SentenceAction::Halt);
    assert_eq!(before_sentence(InterruptMode::Always, false, false, "Hi."), SentenceAction::Synthesize);
    assert_eq!(before_sentence(InterruptMode::Wait, true, false, "Hi."), SentenceAction::Synthesize);
    assert_eq!(before_sentence(InterruptMode::Wait, true, true, "Hi."), SentenceAction::Halt);
}

#[test]
fn failed_or_empty_synthesis_is_skipped() {
    assert!(should_play(true, 10));
    assert!(!should_play(true, 0));
    assert!(!should_play(false, 10));
}

#[test]
fn after_play_stops_on_interruption() {
    assert_eq!(
        after_play(InterruptMode::Always, false, false),
        PlayFollowUp { stop: true, interrupted: true, interrupt_player: false }
    );
    assert_eq!(
        after_play(InterruptMode::Wait, false, true),
        PlayFollowUp { stop: true, interrupted: false, interrupt_player: false }
    );
    assert_eq!(
        after_play(InterruptMode::Always, true, true),
        PlayFollowUp { stop: true, interrupted: true, interrupt_player: true }
    );
    assert_eq!(
        after_play(InterruptMode::Always, true, false),
        PlayFollowUp { stop: false, interrupted: false, interrupt_player: false }
    );
    assert_eq!(
        after_play(InterruptMode::Wait, true, true),
        PlayFollowUp { stop: false, interrupted: false, interrupt_player: false }
    );
}

#[test]
fn finish_reply_resumes_or_discards() {
    assert_eq!(finish_reply(InterruptMode::Wait, false), ReplyEnd { resume_microphone: true, discard_queued: false });
    assert_eq!(finish_reply(InterruptMode::Wait, true), ReplyEnd { resume_microphone: true, discard_queued: false });
    assert_eq!(finish_reply(InterruptMode::Always, true), ReplyEnd { resume_microphone: false, discard_queued: true });
    assert_eq!(finish_reply(InterruptMode::Always, false), ReplyEnd { resume_microphone: false, discard_queued: false });
}

#[test]
fn shutdown_stops_capture_before_the_stages() {
    assert_eq!(
        shutdown_steps(),
        vec![
            ShutdownStep::RaiseFlag,
            ShutdownStep::StopCapture,
            ShutdownStep::CloseChannels,
            ShutdownStep::AwaitStage(Stage::Transcription, 500),
            ShutdownStep::AwaitStage(Stage::Dialogue, 500),
            ShutdownStep::AwaitStage(Stage::Synthesis, 500),
        ]
    );
    let waits: u64 = shutdown_steps()
        .iter()
        .map(|step| match step {
            ShutdownStep::AwaitStage(_, grace) => *grace,
            _ => 0,
        })
        .sum();
    let work = JoinWork { drain: true, callback: true };
    assert_eq!(waits + voice_assistant::capture::CaptureSession::join_budget_ms(work), 3 * STAGE_GRACE_MS + 200);
}

#[test]
fn slow_threads_are_left_behind() {
    assert_eq!(after_grace(true), JoinAction::Join);
    assert_eq!(after_grace(false), JoinAction::Abandon);
}

#[test]
fn history_is_trimmed_in_pairs() {
    assert_eq!(history_to_drop(20, 10), 0);
    assert_eq!(history_to_drop(22, 10), 2);
    assert_eq!(history_to_drop(23, 10), 4);
    assert_eq!(history_to_drop(2, 0), 2);
    assert_eq!(history_to_drop(1, 0), 1);
    assert_eq!(history_to_drop(3, 1), 2);
    assert_eq!(history_to_drop(0, 0), 0);
    assert_eq!(history_to_drop(5, usize::MAX), 0);
}

fn reply(mode: InterruptMode, text: &str) -> ReplySession {
    ReplySession::open(mode, begin_reply(mode, false, text).sentences)
}

#[test]
fn session_speaks_every_sentence_in_order() {
    let mut session = reply(InterruptMode::Wait, "One. Two!");
    assert_eq!(session.next_step(true, false), ReplyStep::Speak("One.".to_string()));
    assert!(!session.sentence_done(Some(true), true));
    assert_eq!(session.next_step(true, false), ReplyStep::Speak("Two!".to_string()));
    assert!(!session.sentence_done(None, true));
    let end = ReplyEnd { resume_microphone: true, discard_queued: false };
    assert_eq!(session.next_step(true, false), ReplyStep::Finish { interrupt_player: false, end });
    assert_eq!(session.next_step(false, false), ReplyStep::Finish { interrupt_player: false, end });
}

#[test]
fn session_is_aborted_by_speech_under_always() {
    let mut session = reply(InterruptMode::Always, "One. Two. Three.");
    assert_eq!(session.next_step(false, false), ReplyStep::Speak("One.".to_string()));
    assert!(!session.sentence_done(Some(true), false));
    let end = ReplyEnd { resume_microphone: false, discard_queued: true };
    assert_eq!(session.next_step(true, false), ReplyStep::Finish { interrupt_player: true, end });
    assert_eq!(session.next_step(false, false), ReplyStep::Finish { interrupt_player: false, end });
}

#[test]
fn session_stops_after_interrupted_playback() {
    let mut session = reply(InterruptMode::Always, "One. Two.");
    assert_eq!(session.next_step(false, false), ReplyStep::Speak("One.".to_string()));
    assert!(session.sentence_done(Some(true), true));
    let end = ReplyEnd { resume_microphone: false, discard_queued: true };
    assert_eq!(session.next_step(false, false), ReplyStep::Finish { interrupt_player: false, end });

    let mut waiting = reply(InterruptMode::Wait, "One. Two.");
    assert_eq!(waiting.next_step(false, false), ReplyStep::Speak("One.".to_string()));
    assert!(!waiting.sentence_done(Some(false), true));
    let end = ReplyEnd { resume_microphone: true, discard_queued: false };
    assert_eq!(waiting.next_step(false, false), ReplyStep::Finish { interrupt_player: false, end });
}

#[test]
fn session_halts_on_shutdown_and_skips_blank_sentences() {
    let blank = vec!["  ".to_string(), "One.".to_string(), "\t".to_string(), "Two.".to_string()];
    let mut session = ReplySession::open(InterruptMode::Always, blank);
    assert_eq!(session.next_step(false, false), ReplyStep::Speak("One.".to_string()));
    assert!(!session.sentence_done(None, true));
    let end = ReplyEnd { resume_microphone: false, discard_queued: false };
    assert_eq!(session.next_step(false, true), ReplyStep::Finish { interrupt_player: false, end });
    assert_eq!(session.next_step(false, false), ReplyStep::Finish { interrupt_player: false, end });

    let mut empty = ReplySession::open(InterruptMode::Wait, vec![" ".to_string()]);
    let end = ReplyEnd { resume_microphone: true, discard_queued: false };
    assert_eq!(empty.next_step(true, true), ReplyStep::Finish { interrupt_player: false, end });
}
