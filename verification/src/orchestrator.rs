//! The rules of the three pipeline stages and of the shutdown.
//!
//! Each stage loop lives outside this crate, where it receives from its
//! channel and calls the engines. After every event it asks one of the
//! functions below what to do next.

use crate::capture::{JoinWork, JOIN_GRACE_MS};
use crate::config::InterruptMode;
use crate::sentences::{sentences, split_sentences, texts, trim, trimmed_text};
use vstd::prelude::*;

verus! {

/// Longest time a stage waits for input before it looks at the shutdown
/// flag again, in milliseconds.
pub const STAGE_POLL_MS: u64 = 100;

/// Time given to each stage to leave after shutdown, in milliseconds.
pub const STAGE_GRACE_MS: u64 = 500;

/// Items that each channel between two stages holds.
pub const CHANNEL_DEPTH: usize = 10;

/// Segments that the channel from voice detection holds.
pub const SEGMENT_DEPTH: usize = 5;

/// How a receive with a time limit ended.
#[derive(Debug, Clone, Copy, PartialEq, Eq, Structural)]
pub enum Received {
    /// An item arrived.
    Item,
    /// The sending side is gone.
    Closed,
    /// Nothing arrived in time.
    TimedOut,
}

/// What a stage does after a receive.
#[derive(Debug, Clone, Copy, PartialEq, Eq, Structural)]
pub enum StageFlow {
    /// Work on the item.
    Process,
    /// Go round the loop again.
    Poll,
    /// Leave the loop: the stage ends.
    Leave,
}

/// What the dialogue stage does with a transcript.
#[derive(Debug, PartialEq, Eq)]
pub enum DialogueAction {
    /// The user is speaking: the transcript and all that were queued
    /// behind it are thrown away; the number says how many.
    Discarded(usize),
    /// Interrupt the current playback, then hand this text to the chat engine.
    Chat(String),
}

/// How the synthesis stage opens its work on a reply.
#[derive(Debug, PartialEq, Eq)]
pub struct ReplyStart {
    /// The reply and all queued behind it are thrown away.
    pub discard_queued: bool,
    /// The microphone is paused before the first sentence.
    pub pause_microphone: bool,
    /// The sentences to speak, in order; empty when the reply is discarded.
    pub sentences: Vec<String>,
}

/// What the synthesis stage does with the next sentence.
#[derive(Debug, Clone, Copy, PartialEq, Eq, Structural)]
pub enum SentenceAction {
    /// The sentence is blank: go to the next one.
    Skip,
    /// The user is speaking: interrupt the player and give up the reply.
    Abort,
    /// Shutdown was asked for: give up the reply without interrupting.
    Halt,
    /// Synthesize the sentence and play it.
    Synthesize,
}

/// What the synthesis stage does after a sentence was played.
#[derive(Debug, Clone, Copy, PartialEq, Eq, Structural)]
pub struct PlayFollowUp {
    /// Whether the remaining sentences are given up.
    pub stop: bool,
    /// Whether the reply counts as interrupted.
    pub interrupted: bool,
    /// Whether the player is told to interrupt.
    pub interrupt_player: bool,
}

/// How the synthesis stage closes its work on a reply.
#[derive(Debug, Clone, Copy, PartialEq, Eq, Structural)]
pub struct ReplyEnd {
    /// Wait for the settle delay, then resume the microphone.
    pub resume_microphone: bool,
    /// Throw away the replies that are queued.
    pub discard_queued: bool,
}

/// A stage of the pipeline.
#[derive(Debug, Clone, Copy, PartialEq, Eq, Structural)]
pub enum Stage {
    Transcription,
    Dialogue,
    Synthesis,
}

/// One step of the shutdown.
#[derive(Debug, Clone, Copy, PartialEq, Eq, Structural)]
pub enum ShutdownStep {
    /// Set the shutdown flag.
    RaiseFlag,
    /// Shut the capturer down, so that no new segment is made.
    StopCapture,
    /// Drop the senders of the stage channels, so that waiting stages wake.
    CloseChannels,
    /// Wait for the stage to end, at most the given milliseconds.
    AwaitStage(Stage, u64),
}

/// What is done with a thread after its grace period.
#[derive(Debug, Clone, Copy, PartialEq, Eq, Structural)]
pub enum JoinAction {
    /// It has ended: join it.
    Join,
    /// It is still running: log a warning and go on without it.
    Abandon,
}

/// The reply spoken when the chat engine fails.
pub open spec fn apology_text() -> Seq<char> {
    "I'm sorry, I encountered an error."@
}

/// Whether a stage loop goes round once more.
pub fn stage_runs(shutdown: bool) -> (runs: bool)
    ensures
        runs == !shutdown,
{
    !shutdown
}

/// What a stage does after a receive: an item is processed, a closed
/// channel ends the stage, a timeout leads back to the shutdown check.
pub fn stage_flow(received: Received) -> (flow: StageFlow)
    ensures
        flow == match received {
            Received::Item => StageFlow::Process,
            Received::Closed => StageFlow::Leave,
            Received::TimedOut => StageFlow::Poll,
        },
{
    match received {
        Received::Item => StageFlow::Process,
        Received::Closed => StageFlow::Leave,
        Received::TimedOut => StageFlow::Poll,
    }
}

/// Whether every character of `s` is whitespace.
fn is_blank(s: &str) -> (blank: bool)
    ensures
        blank == (trim(s@).len() == 0),
{
    trimmed_text(s).is_none()
}

/// Whether a segment is worth transcribing: an empty one is not.
pub fn segment_is_usable(samples: usize) -> (usable: bool)
    ensures
        usable == (samples > 0),
{
    samples > 0
}

/// What a turn of the dialogue stage comes to.
pub struct DialogueOutcome {
    /// The text handed to the chat engine, if any.
    pub for_chat: Option<Seq<char>>,
    /// The transcripts still waiting after the turn.
    pub still_queued: Seq<Seq<char>>,
    /// The number of transcripts thrown away.
    pub discarded: nat,
}

/// The outcome of a turn on `transcript` with `queued` waiting behind it.
pub open spec fn dialogue_outcome(
    user_speaking: bool,
    transcript: Seq<char>,
    queued: Seq<Seq<char>>,
) -> DialogueOutcome {
    if user_speaking {
        DialogueOutcome { for_chat: None, still_queued: Seq::empty(), discarded: queued.len() + 1 }
    } else {
        DialogueOutcome { for_chat: Some(transcript), still_queued: queued, discarded: 0 }
    }
}

/// A count as it is reported: the count itself, or the largest number
/// there is where the count lies beyond it.
pub open spec fn reported_count(count: nat) -> usize {
    if count <= usize::MAX {
        count as usize
    } else {
        usize::MAX
    }
}

/// One turn of the dialogue stage, with `queued` standing for the
/// transcripts that wait in the channel behind the one received. While the
/// user speaks, all of them are stale: they are dropped and counted, and
/// nothing reaches the chat engine. Otherwise the transcript goes to the
/// chat engine and the queue is left alone.
pub fn dialogue_step(user_speaking: bool, transcript: String, queued: &mut Vec<String>) -> (action:
    DialogueAction)
    ensures
        texts(final(queued)@) == dialogue_outcome(
            user_speaking,
            transcript@,
            texts(old(queued)@),
        ).still_queued,
        user_speaking ==> final(queued)@.len() == 0 && action == DialogueAction::Discarded(
            reported_count(
                dialogue_outcome(user_speaking, transcript@, texts(old(queued)@)).discarded,
            ),
        ),
        !user_speaking ==> action == DialogueAction::Chat(transcript) && final(queued)@ == old(
            queued,
        )@,
{
    if user_speaking {
        let count = if queued.len() == usize::MAX {
            usize::MAX
        } else {
            queued.len() + 1
        };
        proof {
            assert(texts(queued@).len() == queued@.len());
        }
        queued.clear();
        proof {
            assert(texts(queued@) =~= Seq::<Seq<char>>::empty());
        }
        DialogueAction::Discarded(count)
    } else {
        DialogueAction::Chat(transcript)
    }
}

/// The reply that the dialogue stage forwards: the engine's answer, or the
/// apology when the engine failed.
pub fn dialogue_reply(answer: Option<String>) -> (reply: String)
    ensures
        answer matches Some(text) ==> reply == text,
        answer is None ==> reply@ == apology_text(),
{
    match answer {
        Some(text) => text,
        None => "I'm sorry, I encountered an error.".to_owned(),
    }
}

/// Number of the oldest entries that leave a conversation history of
/// `len` entries so that at most `max_history` exchanges of two entries stay.
/// Entries leave in pairs, so one more than needed leaves when the excess is
/// odd, unless it was the last.
pub open spec fn history_excess(len: nat, max_history: nat) -> nat {
    if len <= 2 * max_history {
        0
    } else {
        let over = (len - 2 * max_history) as nat;
        if over % 2 == 0 || over == len {
            over
        } else {
            over + 1
        }
    }
}

/// Computes how many of the oldest entries of the history are dropped
/// after an exchange was added.
pub fn history_to_drop(len: usize, max_history: usize) -> (drop: usize)
    ensures
        drop == history_excess(len as nat, max_history as nat),
        drop <= len,
{
    if max_history > usize::MAX / 2 || len <= 2 * max_history {
        0
    } else {
        let over = len - 2 * max_history;
        if over % 2 == 0 || over == len {
            over
        } else {
            over + 1
        }
    }
}

/// Opens the work on a reply. Under `Always`, speech of the user discards
/// the reply and those queued behind it. Otherwise the reply is cut into
/// sentences, and under `Wait` the microphone is paused first.
pub fn begin_reply(mode: InterruptMode, user_speaking: bool, reply: &str) -> (start: ReplyStart)
    ensures
        start.discard_queued == (mode == InterruptMode::Always && user_speaking),
        start.pause_microphone == (mode == InterruptMode::Wait),
        start.discard_queued ==> start.sentences@.len() == 0,
        !start.discard_queued ==> texts(start.sentences@) == sentences(reply@),
{
    let always = match mode {
        InterruptMode::Always => true,
        InterruptMode::Wait => false,
    };
    if always && user_speaking {
        ReplyStart { discard_queued: true, pause_microphone: false, sentences: Vec::new() }
    } else {
        ReplyStart {
            discard_queued: false,
            pause_microphone: !always,
            sentences: split_sentences(reply),
        }
    }
}

/// The action for the next sentence: a blank sentence is skipped; under
/// `Always`, speech of the user aborts the reply; a shutdown halts it;
/// otherwise the sentence is synthesized.
pub open spec fn sentence_action(
    mode: InterruptMode,
    user_speaking: bool,
    shutdown: bool,
    sentence: Seq<char>,
) -> SentenceAction {
    if trim(sentence).len() == 0 {
        SentenceAction::Skip
    } else if mode == InterruptMode::Always && user_speaking {
        SentenceAction::Abort
    } else if shutdown {
        SentenceAction::Halt
    } else {
        SentenceAction::Synthesize
    }
}

/// Decides what to do with the next sentence of a reply.
pub fn before_sentence(mode: InterruptMode, user_speaking: bool, shutdown: bool, sentence: &str) -> (action:
    SentenceAction)
    ensures
        action == sentence_action(mode, user_speaking, shutdown, sentence@),
{
    let always = match mode {
        InterruptMode::Always => true,
        InterruptMode::Wait => false,
    };
    if is_blank(sentence) {
        SentenceAction::Skip
    } else if always && user_speaking {
        SentenceAction::Abort
    } else if shutdown {
        SentenceAction::Halt
    } else {
        SentenceAction::Synthesize
    }
}

/// Whether synthesized audio is played: a failed synthesis and an empty
/// result are skipped.
pub fn should_play(synthesis_ok: bool, samples: usize) -> (play: bool)
    ensures
        play == (synthesis_ok && samples > 0),
{
    synthesis_ok && samples > 0
}

/// What follows the playing of a sentence.
pub open spec fn play_follow_up(mode: InterruptMode, completed: bool, user_speaking: bool) -> PlayFollowUp {
    if !completed {
        PlayFollowUp {
            stop: true,
            interrupted: mode == InterruptMode::Always,
            interrupt_player: false,
        }
    } else if mode == InterruptMode::Always && user_speaking {
        PlayFollowUp { stop: true, interrupted: true, interrupt_player: true }
    } else {
        PlayFollowUp { stop: false, interrupted: false, interrupt_player: false }
    }
}

/// Decides what follows the playing of a sentence: playback that did not
/// complete ends the reply, and so does speech of the user under `Always`.
pub fn after_play(mode: InterruptMode, completed: bool, user_speaking: bool) -> (follow: PlayFollowUp)
    ensures
        follow == play_follow_up(mode, completed, user_speaking),
{
    let always = match mode {
        InterruptMode::Always => true,
        InterruptMode::Wait => false,
    };
    if !completed {
        PlayFollowUp { stop: true, interrupted: always, interrupt_player: false }
    } else if always && user_speaking {
        PlayFollowUp { stop: true, interrupted: true, interrupt_player: true }
    } else {
        PlayFollowUp { stop: false, interrupted: false, interrupt_player: false }
    }
}

/// How a reply is closed.
pub open spec fn reply_end(mode: InterruptMode, interrupted: bool) -> ReplyEnd {
    ReplyEnd {
        resume_microphone: mode == InterruptMode::Wait,
        discard_queued: interrupted && mode == InterruptMode::Always,
    }
}

/// Closes the work on a reply: under `Wait` the microphone is resumed after
/// the settle delay; under `Always` an interrupted reply takes the queued
/// replies with it.
pub fn finish_reply(mode: InterruptMode, interrupted: bool) -> (end: ReplyEnd)
    ensures
        end == reply_end(mode, interrupted),
{
    match mode {
        InterruptMode::Always => ReplyEnd { resume_microphone: false, discard_queued: interrupted },
        InterruptMode::Wait => ReplyEnd { resume_microphone: true, discard_queued: false },
    }
}

/// What the synthesis stage does next with a reply.
#[derive(Debug, PartialEq, Eq)]
pub enum ReplyStep {
    /// Synthesize this sentence and play what comes of it, then report with
    /// `sentence_done`.
    Speak(String),
    /// The reply is over: interrupt the player if asked, then close the
    /// reply as `end` says.
    Finish { interrupt_player: bool, end: ReplyEnd },
}

/// The work of the synthesis stage on one reply: the sentences still to
/// speak, and whether the reply was stopped or interrupted.
pub struct ReplySession {
    mode: InterruptMode,
    sentences: Vec<String>,
    next: usize,
    interrupted: bool,
    stopped: bool,
}

/// Place of the first sentence at or after `from` that is not blank, or the
/// number of sentences if there is none.
pub open spec fn next_spoken(sentences: Seq<Seq<char>>, from: int) -> int
    decreases sentences.len() - from,
{
    if from < 0 || from >= sentences.len() {
        sentences.len() as int
    } else if trim(sentences[from]).len() == 0 {
        next_spoken(sentences, from + 1)
    } else {
        from
    }
}

impl ReplySession {
    /// The interrupt mode of the stage.
    pub closed spec fn mode(&self) -> InterruptMode {
        self.mode
    }

    /// All sentences of the reply.
    pub closed spec fn all_sentences(&self) -> Seq<Seq<char>> {
        texts(self.sentences@)
    }

    /// Number of sentences already dealt with.
    pub closed spec fn position(&self) -> int {
        self.next as int
    }

    /// Whether the reply counts as interrupted.
    pub closed spec fn was_interrupted(&self) -> bool {
        self.interrupted
    }

    /// Whether the remaining sentences were given up.
    pub closed spec fn is_stopped(&self) -> bool {
        self.stopped
    }

    /// Under `Wait` a reply is never interrupted.
    pub closed spec fn wf(&self) -> bool {
        &&& self.next <= self.sentences@.len()
        &&& self.mode == InterruptMode::Wait ==> !self.interrupted
    }

    /// Half duplex over a whole reply: under `Wait`, whatever happened so
    /// far, the reply does not count as interrupted, so that it ends with
    /// the microphone being resumed and nothing being discarded.
    pub proof fn lemma_wait_reply_never_interrupted(&self)
        requires
            self.wf(),
            self.mode() == InterruptMode::Wait,
        ensures
            !self.was_interrupted(),
            reply_end(self.mode(), self.was_interrupted()) == (ReplyEnd {
                resume_microphone: true,
                discard_queued: false,
            }),
    {
    }

    /// Opens the session for the sentences of a reply.
    pub fn open(mode: InterruptMode, sentences: Vec<String>) -> (session: ReplySession)
        ensures
            session.wf(),
            session.mode() == mode,
            session.all_sentences() == texts(sentences@),
            session.position() == 0,
            !session.was_interrupted(),
            !session.is_stopped(),
    {
        ReplySession { mode, sentences, next: 0, interrupted: false, stopped: false }
    }

    /// Decides the next step. A stopped reply and a reply without further
    /// sentences are finished. Otherwise blank sentences are passed over,
    /// and the first other one is spoken, unless the user speaks under
    /// `Always`, which interrupts the reply, or shutdown was asked for,
    /// which stops it.
    pub fn next_step(&mut self, user_speaking: bool, shutdown: bool) -> (step: ReplyStep)
        requires
            old(self).wf(),
        ensures
            final(self).wf(),
            final(self).mode() == old(self).mode(),
            final(self).all_sentences() == old(self).all_sentences(),
            ({
                let k = next_spoken(old(self).all_sentences(), old(self).position());
                let idle = old(self).is_stopped() || k >= old(self).all_sentences().len();
                let action = if idle {
                    SentenceAction::Halt
                } else {
                    sentence_action(
                        old(self).mode(),
                        user_speaking,
                        shutdown,
                        old(self).all_sentences()[k],
                    )
                };
                match action {
                    SentenceAction::Synthesize => {
                        &&& step matches ReplyStep::Speak(text)
                        &&& text@ == old(self).all_sentences()[k]
                        &&& final(self).position() == k + 1
                        &&& final(self).was_interrupted() == old(self).was_interrupted()
                        &&& !final(self).is_stopped()
                    },
                    SentenceAction::Abort => {
                        &&& step == (ReplyStep::Finish {
                            interrupt_player: true,
                            end: reply_end(old(self).mode(), true),
                        })
                        &&& final(self).was_interrupted()
                        &&& final(self).is_stopped()
                    },
                    _ => {
                        &&& step == (ReplyStep::Finish {
                            interrupt_player: false,
                            end: reply_end(old(self).mode(), old(self).was_interrupted()),
                        })
                        &&& final(self).was_interrupted() == old(self).was_interrupted()
                        &&& final(self).is_stopped()
                    },
                }
            }),
    {
        if !self.stopped {
            while self.next < self.sentences.len()
                invariant
                    self.wf(),
                    !self.stopped,
                    !old(self).stopped,
                    self.mode == old(self).mode,
                    self.sentences@ == old(self).sentences@,
                    self.interrupted == old(self).interrupted,
                    old(self).next <= self.next,
                    next_spoken(texts(self.sentences@), self.next as int) == next_spoken(
                        texts(old(self).sentences@),
                        old(self).next as int,
                    ),
                decreases self.sentences@.len() - self.next,
            {
                let k = self.next;
                proof {
                    assert(texts(self.sentences@).len() == self.sentences@.len());
                    assert(texts(self.sentences@)[k as int] == self.sentences@[k as int]@);
                    assert(next_spoken(texts(self.sentences@), k as int) == if trim(
                        texts(self.sentences@)[k as int],
                    ).len() == 0 {
                        next_spoken(texts(self.sentences@), k + 1)
                    } else {
                        k as int
                    });
                }
                match before_sentence(self.mode, user_speaking, shutdown, self.sentences[k].as_str()) {
                    SentenceAction::Skip => {
                        self.next = k + 1;
                    },
                    SentenceAction::Abort => {
                        self.interrupted = true;
                        self.stopped = true;
                        return ReplyStep::Finish {
                            interrupt_player: true,
                            end: finish_reply(self.mode, true),
                        };
                    },
                    SentenceAction::Halt => {
                        self.stopped = true;
                        return ReplyStep::Finish {
                            interrupt_player: false,
                            end: finish_reply(self.mode, self.interrupted),
                        };
                    },
                    SentenceAction::Synthesize => {
                        let text = self.sentences[k].clone();
                        self.next = k + 1;
                        return ReplyStep::Speak(text);
                    },
                }
            }
        }
        proof {
            assert(texts(self.sentences@).len() == self.sentences@.len());
        }
        self.stopped = true;
        ReplyStep::Finish { interrupt_player: false, end: finish_reply(self.mode, self.interrupted) }
    }

    /// Takes note of what became of the sentence last handed out: `None`
    /// when nothing was played, else whether playback completed. Returns
    /// whether the player is to be interrupted.
    pub fn sentence_done(&mut self, played: Option<bool>, user_speaking: bool) -> (interrupt_player:
        bool)
        requires
            old(self).wf(),
        ensures
            final(self).wf(),
            final(self).mode() == old(self).mode(),
            final(self).all_sentences() == old(self).all_sentences(),
            final(self).position() == old(self).position(),
            played is None ==> !interrupt_player && final(self).was_interrupted() == old(
                self,
            ).was_interrupted() && final(self).is_stopped() == old(self).is_stopped(),
            played matches Some(completed) ==> {
                let follow = play_follow_up(old(self).mode(), completed, user_speaking);
                &&& interrupt_player == follow.interrupt_player
                &&& final(self).was_interrupted() == (old(self).was_interrupted()
                    || follow.interrupted)
                &&& final(self).is_stopped() == (old(self).is_stopped() || follow.stop)
            },
    {
        match played {
            None => false,
            Some(completed) => {
                let follow = after_play(self.mode, completed, user_speaking);
                if follow.interrupted {
                    self.interrupted = true;
                }
                if follow.stop {
                    self.stopped = true;
                }
                follow.interrupt_player
            },
        }
    }
}

/// The steps of a shutdown, in order.
pub open spec fn shutdown_sequence() -> Seq<ShutdownStep> {
    seq![
        ShutdownStep::RaiseFlag,
        ShutdownStep::StopCapture,
        ShutdownStep::CloseChannels,
        ShutdownStep::AwaitStage(Stage::Transcription, STAGE_GRACE_MS),
        ShutdownStep::AwaitStage(Stage::Dialogue, STAGE_GRACE_MS),
        ShutdownStep::AwaitStage(Stage::Synthesis, STAGE_GRACE_MS),
    ]
}

/// The longest time a step waits, in milliseconds, given the threads that
/// the capturer has to join.
pub open spec fn step_wait_ms(step: ShutdownStep, work: JoinWork) -> nat {
    match step {
        ShutdownStep::RaiseFlag => 0,
        ShutdownStep::StopCapture => (if work.drain {
            JOIN_GRACE_MS as nat
        } else {
            0
        }) + (if work.callback {
            JOIN_GRACE_MS as nat
        } else {
            0
        }),
        ShutdownStep::CloseChannels => 0,
        ShutdownStep::AwaitStage(_, grace) => grace as nat,
    }
}

/// Sum of the waits of a run of steps.
pub open spec fn total_wait_ms(steps: Seq<ShutdownStep>, work: JoinWork) -> nat
    decreases steps.len(),
{
    if steps.len() == 0 {
        0
    } else {
        total_wait_ms(steps.drop_last(), work) + step_wait_ms(steps.last(), work)
    }
}

/// The shutdown: the flag first, then the capturer, then the channels, then
/// each stage under its grace period.
pub fn shutdown_steps() -> (steps: Vec<ShutdownStep>)
    ensures
        steps@ == shutdown_sequence(),
{
    let mut steps: Vec<ShutdownStep> = Vec::new();
    steps.push(ShutdownStep::RaiseFlag);
    steps.push(ShutdownStep::StopCapture);
    steps.push(ShutdownStep::CloseChannels);
    steps.push(ShutdownStep::AwaitStage(Stage::Transcription, STAGE_GRACE_MS));
    steps.push(ShutdownStep::AwaitStage(Stage::Dialogue, STAGE_GRACE_MS));
    steps.push(ShutdownStep::AwaitStage(Stage::Synthesis, STAGE_GRACE_MS));
    proof {
        assert(steps@ =~= shutdown_sequence());
    }
    steps
}

/// What is done with a thread or stage once its grace period is over: it is
/// joined if it has ended, and left behind otherwise, so that nothing can
/// hold the shutdown up.
pub fn after_grace(finished: bool) -> (action: JoinAction)
    ensures
        action == if finished {
            JoinAction::Join
        } else {
            JoinAction::Abandon
        },
{
    if finished {
        JoinAction::Join
    } else {
        JoinAction::Abandon
    }
}

/// Discard law of the dialogue stage: a turn taken while the user speaks
/// hands nothing to the chat engine and leaves no transcript queued,
/// however many there were: the one received and all behind it are thrown
/// away.
pub proof fn lemma_stale_transcripts_discarded(transcript: Seq<char>, queued: Seq<Seq<char>>)
    ensures
        dialogue_outcome(true, transcript, queued).for_chat is None,
        dialogue_outcome(true, transcript, queued).still_queued.len() == 0,
        dialogue_outcome(true, transcript, queued).discarded == queued.len() + 1,
{
}

/// Barge-in: under `Always`, speech of the user lets no further sentence be
/// synthesized, whether it is noticed before a sentence or after one was
/// played, and the replies still queued are discarded with the reply.
pub proof fn lemma_barge_in_cancels_reply(shutdown: bool, sentence: Seq<char>, completed: bool)
    ensures
        sentence_action(InterruptMode::Always, true, shutdown, sentence)
            != SentenceAction::Synthesize,
        play_follow_up(InterruptMode::Always, completed, true).stop,
        play_follow_up(InterruptMode::Always, completed, true).interrupted,
        reply_end(InterruptMode::Always, true).discard_queued,
{
}

/// Half duplex: under `Wait` the user's speech never aborts a sentence and
/// never discards a reply, and every reply ends with the microphone being
/// resumed.
pub proof fn lemma_wait_mode_is_half_duplex(
    user_speaking: bool,
    shutdown: bool,
    sentence: Seq<char>,
    completed: bool,
    interrupted: bool,
)
    ensures
        sentence_action(InterruptMode::Wait, user_speaking, shutdown, sentence)
            != SentenceAction::Abort,
        !play_follow_up(InterruptMode::Wait, completed, user_speaking).interrupted,
        !play_follow_up(InterruptMode::Wait, completed, user_speaking).interrupt_player,
        reply_end(InterruptMode::Wait, interrupted).resume_microphone,
        !reply_end(InterruptMode::Wait, interrupted).discard_queued,
{
}

/// Shutdown bound: the waits of the whole shutdown add up to no more than
/// the grace periods of the two capture threads and the three stages.
pub proof fn lemma_shutdown_bound(work: JoinWork)
    ensures
        total_wait_ms(shutdown_sequence(), work) <= 2 * JOIN_GRACE_MS + 3 * STAGE_GRACE_MS,
        total_wait_ms(shutdown_sequence(), work) == step_wait_ms(ShutdownStep::StopCapture, work)
            + 3 * STAGE_GRACE_MS,
{
    let s = shutdown_sequence();
    let s5 = s.drop_last();
    let s4 = s5.drop_last();
    let s3 = s4.drop_last();
    let s2 = s3.drop_last();
    let s1 = s2.drop_last();
    let s0 = s1.drop_last();
    assert(s0.len() == 0);
    assert(total_wait_ms(s0, work) == 0);
    assert(total_wait_ms(s1, work) == 0);
    assert(total_wait_ms(s2, work) == step_wait_ms(ShutdownStep::StopCapture, work));
    assert(total_wait_ms(s3, work) == total_wait_ms(s2, work));
    assert(total_wait_ms(s4, work) == total_wait_ms(s3, work) + STAGE_GRACE_MS);
    assert(total_wait_ms(s5, work) == total_wait_ms(s4, work) + STAGE_GRACE_MS);
    assert(total_wait_ms(s, work) == total_wait_ms(s5, work) + STAGE_GRACE_MS);
}

} // verus!
