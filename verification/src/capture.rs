//! Decisions of the capture side: what the input callback stores, what the
//! drain thread forwards, and how the session's flags move from start to
//! shutdown.

use crate::ring::{accepted_count, taken_count, RingConsumer, RingProducer, SampleRing};
use vstd::prelude::*;

verus! {

/// Capacity of the capture queue in samples: about four seconds at 16 kHz.
pub const CAPTURE_RING_SIZE: usize = 65536;

/// Chunks that the hand-off channel holds before the drain thread blocks.
pub const HANDOFF_DEPTH: usize = 32;

/// Most samples that the drain thread forwards in one chunk.
pub const DRAIN_CHUNK: usize = 2048;

/// Sleep of the drain thread while capture is paused, in milliseconds.
pub const PAUSE_POLL_MS: u64 = 10;

/// Sleep of the drain thread while the queue is empty, in microseconds.
pub const IDLE_POLL_US: u64 = 100;

/// Time given to each helper thread to leave before it is joined, in milliseconds.
pub const JOIN_GRACE_MS: u64 = 100;

/// One warning is logged for every this many overflows of the queue.
pub const DROP_LOG_INTERVAL: u64 = 100;

/// What the input callback did with one block of samples.
#[derive(Debug, Clone, Copy, PartialEq, Eq, Structural)]
pub struct CaptureReport {
    /// Samples that entered the queue.
    pub written: usize,
    /// Samples that were offered and found no room.
    pub dropped: usize,
}

/// Stores one block of captured samples. While capture is paused the block
/// is discarded and the queue is left alone; otherwise as many leading
/// samples as fit are queued and the rest is dropped.
pub fn store_captured(running: bool, ring: &mut SampleRing, samples: &[u32]) -> (report:
    CaptureReport)
    requires
        old(ring).wf(),
    ensures
        final(ring).wf(),
        final(ring).capacity() == old(ring).capacity(),
        !running ==> final(ring)@ == old(ring)@ && report == (CaptureReport {
            written: 0,
            dropped: 0,
        }),
        running ==> report.written == accepted_count(
            old(ring)@.len(),
            old(ring).capacity(),
            samples@.len(),
        ) && report.written + report.dropped == samples@.len() && final(ring)@ == old(ring)@
            + samples@.take(report.written as int),
{
    if running {
        let written = ring.push_slice(samples);
        CaptureReport { written, dropped: samples.len() - written }
    } else {
        CaptureReport { written: 0, dropped: 0 }
    }
}

/// Stores one block of captured samples through the producing end of a
/// shared queue. While capture is paused the block is discarded and the
/// queue is not touched; otherwise leading samples are queued, as many as
/// find room, and the rest is dropped.
pub fn store_captured_shared(running: bool, end: &mut RingProducer, samples: &[u32]) -> (report:
    CaptureReport)
    ensures
        final(end).capacity() == old(end).capacity(),
        !running ==> report == (CaptureReport { written: 0, dropped: 0 }),
        running ==> report.written + report.dropped == samples@.len(),
        report.written <= old(end).capacity(),
{
    if running {
        let written = end.push_slice(samples);
        CaptureReport { written, dropped: samples.len() - written }
    } else {
        CaptureReport { written: 0, dropped: 0 }
    }
}

/// Counts one overflow of the queue on a counter that wraps. Returns the
/// number to log, the overflows so far, for the first overflow and every
/// `DROP_LOG_INTERVAL`-th after it, and `None` for the others.
pub fn note_overflow(counter: &mut u64) -> (log: Option<u64>)
    ensures
        *final(counter) == if *old(counter) == u64::MAX {
            0
        } else {
            (*old(counter) + 1) as u64
        },
        *old(counter) % DROP_LOG_INTERVAL == 0 ==> log == Some((*old(counter) + 1) as u64),
        *old(counter) % DROP_LOG_INTERVAL != 0 ==> log.is_none(),
{
    let count = *counter;
    if count == u64::MAX {
        *counter = 0;
    } else {
        *counter = count + 1;
    }
    if count % DROP_LOG_INTERVAL == 0 {
        // `u64::MAX` is no multiple of the interval, so the sum fits.
        Some(count + 1)
    } else {
        None
    }
}

/// What the drain thread does next.
#[derive(Debug, PartialEq, Eq)]
pub enum DrainAction {
    /// Leave the loop for good.
    Exit,
    /// Capture is paused: sleep `PAUSE_POLL_MS` and look again.
    WaitWhilePaused,
    /// Nothing is queued: sleep `IDLE_POLL_US` and look again.
    WaitForSamples,
    /// Send this chunk down the hand-off channel, blocking while it is full.
    Forward(Vec<u32>),
}

/// Number of samples in the next chunk of a queue holding `held`.
pub open spec fn chunk_len(held: nat) -> nat {
    taken_count(held, DRAIN_CHUNK as nat)
}

/// How many samples the drain thread asks of a queue that holds
/// `available`: all of them, but no more than `DRAIN_CHUNK`.
pub fn chunk_request(available: usize) -> (to_read: usize)
    ensures
        to_read == chunk_len(available as nat),
{
    if available < DRAIN_CHUNK {
        available
    } else {
        DRAIN_CHUNK
    }
}

/// What the drain thread does with the `read` samples that the queue put
/// into the first places of `chunk`: with none it waits for samples, else it
/// forwards exactly those.
pub fn chunk_action(chunk: Vec<u32>, read: usize) -> (action: DrainAction)
    requires
        read <= chunk@.len(),
    ensures
        read == 0 ==> action == DrainAction::WaitForSamples,
        read > 0 ==> (action matches DrainAction::Forward(c) && c@ == chunk@.take(read as int)),
{
    if read == 0 {
        DrainAction::WaitForSamples
    } else {
        let mut chunk = chunk;
        chunk.truncate(read);
        DrainAction::Forward(chunk)
    }
}

/// One turn of the drain thread. A closed hand-off channel and the shutdown
/// flag end the loop; a pause or an empty queue lead to a sleep, and nothing
/// is taken from the queue; otherwise the oldest samples, at most
/// `DRAIN_CHUNK` of them, leave the queue as the next chunk.
pub fn drain_step(handoff_open: bool, shutdown: bool, running: bool, ring: &mut SampleRing) -> (action:
    DrainAction)
    requires
        old(ring).wf(),
    ensures
        final(ring).wf(),
        final(ring).capacity() == old(ring).capacity(),
        !handoff_open || shutdown ==> action == DrainAction::Exit && final(ring)@ == old(ring)@,
        handoff_open && !shutdown && !running ==> action == DrainAction::WaitWhilePaused
            && final(ring)@ == old(ring)@,
        handoff_open && !shutdown && running && old(ring)@.len() == 0 ==> action
            == DrainAction::WaitForSamples && final(ring)@ == old(ring)@,
        handoff_open && !shutdown && running && old(ring)@.len() > 0 ==> {
            &&& action matches DrainAction::Forward(chunk)
            &&& chunk@ == old(ring)@.take(chunk_len(old(ring)@.len()) as int)
            &&& final(ring)@ == old(ring)@.skip(chunk_len(old(ring)@.len()) as int)
        },
{
    if !handoff_open || shutdown {
        return DrainAction::Exit;
    }
    if !running {
        return DrainAction::WaitWhilePaused;
    }
    let to_read = chunk_request(ring.occupied_len());
    let mut chunk: Vec<u32> = vec![0u32; to_read];
    let read = ring.pop_slice(&mut chunk, to_read);
    proof {
        assert(read == to_read);
        assert(chunk@.take(read as int) =~= old(ring)@.take(read as int));
        assert(old(ring)@.skip(0) =~= old(ring)@);
    }
    chunk_action(chunk, read)
}

/// One turn of the drain thread on the consuming end of a shared queue.
/// The decisions are those of `drain_step`: it asks the queue for
/// `chunk_request` of what the queue reports to hold and does with the
/// answer what `chunk_action` says. How many samples the chunk holds
/// depends on the producer, but it is never empty and never longer than
/// `DRAIN_CHUNK`.
pub fn drain_step_shared(handoff_open: bool, shutdown: bool, running: bool, end: &mut RingConsumer) -> (action:
    DrainAction)
    ensures
        final(end).capacity() == old(end).capacity(),
        !handoff_open || shutdown ==> action == DrainAction::Exit,
        handoff_open && !shutdown && !running ==> action == DrainAction::WaitWhilePaused,
        handoff_open && !shutdown && running ==> action == DrainAction::WaitForSamples || (
        action matches DrainAction::Forward(chunk) && 0 < chunk@.len() <= DRAIN_CHUNK
            && chunk@.len() <= old(end).capacity()),
{
    if !handoff_open || shutdown {
        return DrainAction::Exit;
    }
    if !running {
        return DrainAction::WaitWhilePaused;
    }
    let to_read = chunk_request(end.occupied_len());
    let mut chunk: Vec<u32> = vec![0u32; to_read];
    let read = end.pop_slice(&mut chunk, to_read);
    chunk_action(chunk, read)
}

/// The capture session as its owner sees it: the two flags and what the
/// owner still holds of threads and channel ends.
#[derive(Debug, Clone, Copy, PartialEq, Eq, Structural)]
pub struct CaptureSession {
    /// Whether the callback stores what it hears. Reversible.
    pub running: bool,
    /// Set once at shutdown and never cleared.
    pub shutdown: bool,
    /// Whether the consuming end of the queue is still with the owner.
    pub consumer_held: bool,
    /// Whether the sending end of the hand-off channel is still with the owner.
    pub sender_held: bool,
    /// Whether a drain thread was spawned and not yet joined.
    pub drain_thread: bool,
    /// Whether the thread that calls the user's callback is not yet joined.
    pub callback_thread: bool,
}

/// What `start` asks of its caller.
#[derive(Debug, Clone, Copy, PartialEq, Eq, Structural)]
pub enum StartAction {
    /// The device refused to start the stream: an error, and nothing but
    /// the running flag has changed.
    StreamFailed,
    /// First start: spawn the drain thread with the two ends.
    SpawnDrain,
    /// The drain thread is there already: capture goes on.
    Resume,
    /// The consuming end was given away before: an error.
    ConsumerTaken,
    /// The sending end was given away before: an error.
    SenderTaken,
}

/// The threads that `shutdown` still has to wait for.
#[derive(Debug, Clone, Copy, PartialEq, Eq, Structural)]
pub struct JoinWork {
    /// Give the drain thread `JOIN_GRACE_MS`; then join it if it has ended
    /// and leave it behind if it has not.
    pub drain: bool,
    /// Give the callback thread `JOIN_GRACE_MS`; then join it if it has
    /// ended and leave it behind if it has not.
    pub callback: bool,
}

/// An operation of the owner on the session.
pub enum SessionOp {
    /// `start`, with whether the device started the stream.
    Start(bool),
    Stop,
    Shutdown,
}

impl CaptureSession {
    /// The session after `start`.
    pub open spec fn started(self, stream_ok: bool) -> CaptureSession {
        if !stream_ok || self.drain_thread {
            CaptureSession { running: true, ..self }
        } else if !self.consumer_held {
            CaptureSession { running: true, ..self }
        } else if !self.sender_held {
            CaptureSession { running: true, consumer_held: false, ..self }
        } else {
            CaptureSession {
                running: true,
                consumer_held: false,
                sender_held: false,
                drain_thread: true,
                ..self
            }
        }
    }

    /// What `start` asks for.
    pub open spec fn start_action(self, stream_ok: bool) -> StartAction {
        if !stream_ok {
            StartAction::StreamFailed
        } else if self.drain_thread {
            StartAction::Resume
        } else if !self.consumer_held {
            StartAction::ConsumerTaken
        } else if !self.sender_held {
            StartAction::SenderTaken
        } else {
            StartAction::SpawnDrain
        }
    }

    /// The session after `stop`.
    pub open spec fn stopped(self) -> CaptureSession {
        CaptureSession { running: false, ..self }
    }

    /// The session after `shutdown`.
    pub open spec fn shut_down(self) -> CaptureSession {
        CaptureSession {
            running: false,
            shutdown: true,
            sender_held: false,
            drain_thread: false,
            callback_thread: false,
            ..self
        }
    }

    /// The session after one operation.
    pub open spec fn after(self, op: SessionOp) -> CaptureSession {
        match op {
            SessionOp::Start(stream_ok) => self.started(stream_ok),
            SessionOp::Stop => self.stopped(),
            SessionOp::Shutdown => self.shut_down(),
        }
    }

    /// The session after a run of operations.
    pub open spec fn after_all(self, ops: Seq<SessionOp>) -> CaptureSession
        decreases ops.len(),
    {
        if ops.len() == 0 {
            self
        } else {
            self.after_all(ops.drop_last()).after(ops.last())
        }
    }

    /// A fresh session: paused, with both ends in hand and the callback
    /// thread waiting.
    pub fn new() -> (session: CaptureSession)
        ensures
            session == (CaptureSession {
                running: false,
                shutdown: false,
                consumer_held: true,
                sender_held: true,
                drain_thread: false,
                callback_thread: true,
            }),
    {
        CaptureSession {
            running: false,
            shutdown: false,
            consumer_held: true,
            sender_held: true,
            drain_thread: false,
            callback_thread: true,
        }
    }

    /// Starts or resumes capture, given whether the device started the
    /// stream. The running flag is set in every case; the drain thread is
    /// asked for on the first successful start only.
    pub fn start(&mut self, stream_ok: bool) -> (action: StartAction)
        ensures
            *final(self) == old(self).started(stream_ok),
            action == old(self).start_action(stream_ok),
    {
        self.running = true;
        if !stream_ok {
            StartAction::StreamFailed
        } else if self.drain_thread {
            StartAction::Resume
        } else if !self.consumer_held {
            StartAction::ConsumerTaken
        } else {
            self.consumer_held = false;
            if !self.sender_held {
                StartAction::SenderTaken
            } else {
                self.sender_held = false;
                self.drain_thread = true;
                StartAction::SpawnDrain
            }
        }
    }

    /// Pauses capture; every thread stays alive.
    pub fn stop(&mut self)
        ensures
            *final(self) == old(self).stopped(),
    {
        self.running = false;
    }

    /// Ends capture for good: sets the shutdown flag, clears the running
    /// flag, gives up the sending end and names the threads to join.
    pub fn shutdown(&mut self) -> (work: JoinWork)
        ensures
            *final(self) == old(self).shut_down(),
            work == (JoinWork { drain: old(self).drain_thread, callback: old(self).callback_thread }),
    {
        let work = JoinWork { drain: self.drain_thread, callback: self.callback_thread };
        self.shutdown = true;
        self.running = false;
        self.sender_held = false;
        self.drain_thread = false;
        self.callback_thread = false;
        work
    }

    /// Longest time `shutdown` sleeps before its joins, in milliseconds.
    pub fn join_budget_ms(work: JoinWork) -> (ms: u64)
        ensures
            ms == (if work.drain {
                JOIN_GRACE_MS
            } else {
                0
            }) + (if work.callback {
                JOIN_GRACE_MS
            } else {
                0
            }),
    {
        let drain: u64 = if work.drain {
            JOIN_GRACE_MS
        } else {
            0
        };
        let callback: u64 = if work.callback {
            JOIN_GRACE_MS
        } else {
            0
        };
        drain + callback
    }
}

/// The shutdown flag is monotonic: it is set after a run of operations
/// exactly if it was set before or the run holds a shutdown. Neither `start`
/// nor `stop` ever clears it.
pub proof fn lemma_shutdown_monotonic(session: CaptureSession, ops: Seq<SessionOp>)
    ensures
        session.after_all(ops).shutdown == (session.shutdown || exists|i: int|
            0 <= i < ops.len() && ops[i] == SessionOp::Shutdown),
    decreases ops.len(),
{
    if ops.len() > 0 {
        let head = ops.drop_last();
        lemma_shutdown_monotonic(session, head);
        if ops.last() == SessionOp::Shutdown {
            assert(ops[ops.len() - 1] == SessionOp::Shutdown);
        } else if exists|i: int| 0 <= i < ops.len() && ops[i] == SessionOp::Shutdown {
            let i = choose|i: int| 0 <= i < ops.len() && ops[i] == SessionOp::Shutdown;
            assert(head[i] == SessionOp::Shutdown);
        } else if exists|i: int| 0 <= i < head.len() && head[i] == SessionOp::Shutdown {
            let i = choose|i: int| 0 <= i < head.len() && head[i] == SessionOp::Shutdown;
            assert(ops[i] == SessionOp::Shutdown);
        }
    }
}

/// Shutdown is idempotent: a second shutdown changes nothing and finds no
/// thread left to join.
pub proof fn lemma_shutdown_idempotent(session: CaptureSession)
    ensures
        session.shut_down().shut_down() == session.shut_down(),
        !session.shut_down().drain_thread,
        !session.shut_down().callback_thread,
{
}

/// The pause is reversible and ends no thread: `stop` followed by `start`
/// on a session whose drain thread runs restores it, and neither touches
/// the threads.
pub proof fn lemma_pause_reversible(session: CaptureSession)
    requires
        session.drain_thread,
        session.running,
    ensures
        session.stopped().started(true) == session,
        session.stopped().drain_thread && session.stopped().callback_thread
            == session.callback_thread,
{
}

} // verus!
