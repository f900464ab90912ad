//! Decisions of the playback side: what the output callback writes, how
//! `play` queues samples and waits, and how the flags move.

use crate::ring::{accepted_count, taken_count, RingConsumer, RingProducer, SampleRing};
use vstd::prelude::*;

verus! {

/// Capacity of the playback queue in samples.
pub const PLAYBACK_RING_SIZE: usize = 524288;

/// Added to the estimated playing time before `play` gives up, in milliseconds.
pub const PLAYBACK_MARGIN_MS: u64 = 1000;

/// Longest time `play` sleeps before it looks at the flags again, in milliseconds.
pub const WAIT_SLICE_MS: u64 = 50;

/// Time `clear` lets the callback flush before it lifts the interrupt, in milliseconds.
pub const FLUSH_DELAY_MS: u64 = 20;

/// Whether a sample differs from zero as a number: every bit pattern but
/// those of positive and negative zero.
pub open spec fn is_audible(sample: u32) -> bool {
    sample & 0x7fff_ffffu32 != 0
}

/// Number of audible samples in `s`.
pub open spec fn audible_count(s: Seq<u32>) -> nat
    decreases s.len(),
{
    if s.len() == 0 {
        0
    } else {
        audible_count(s.drop_last()) + if is_audible(s.last()) {
            1nat
        } else {
            0nat
        }
    }
}

/// Number of frames in an output buffer of `len` places: the last frame may
/// be shorter than `channels`.
pub open spec fn frame_count(len: nat, channels: nat) -> nat
    recommends
        channels > 0,
{
    if len % channels == 0 {
        len / channels
    } else {
        len / channels + 1
    }
}

/// The sample of frame `i`: the `i`-th queued sample, or silence when the
/// queue has run dry or playback is interrupted.
pub open spec fn frame_sample(queued: Seq<u32>, interrupted: bool, i: int) -> u32 {
    if !interrupted && 0 <= i < queued.len() {
        queued[i]
    } else {
        0
    }
}

/// The output buffer after rendering: every place of a frame holds that
/// frame's sample.
pub open spec fn rendered(queued: Seq<u32>, interrupted: bool, channels: nat, len: nat) -> Seq<u32>
    recommends
        channels > 0,
{
    Seq::new(len, |k: int| frame_sample(queued, interrupted, k / (channels as int)))
}

/// Number of samples that rendering `frames` frames takes from the queue.
pub open spec fn consumed_count(queued: Seq<u32>, interrupted: bool, frames: nat) -> nat {
    if interrupted {
        0
    } else {
        taken_count(queued.len(), frames)
    }
}

/// What one run of the output callback reports.
#[derive(Debug, Clone, Copy, PartialEq, Eq, Structural)]
pub struct RenderOutcome {
    /// Audible samples taken from the queue.
    pub samples_read: usize,
    /// Whether playback is over: the queue is empty or an interrupt is active.
    pub finished: bool,
}

proof fn lemma_frame_of(k: int, frame: int, channels: int)
    requires
        channels > 0,
        frame * channels <= k < frame * channels + channels,
    ensures
        k / channels == frame,
{
    vstd::arithmetic::div_mod::lemma_fundamental_div_mod_converse(
        k,
        channels,
        frame,
        k - frame * channels,
    );
}

proof fn lemma_frames_done(len: int, frame: int, channels: int)
    requires
        channels > 0,
        len >= 0,
        frame >= 0,
        frame * channels >= len,
        frame > 0 ==> (frame - 1) * channels < len,
        frame == 0 ==> len == 0,
    ensures
        frame == frame_count(len as nat, channels as nat),
{
    if frame > 0 {
        let r = len - (frame - 1) * channels;
        assert(frame * channels == (frame - 1) * channels + channels) by (nonlinear_arith);
        assert(0 < r <= channels);
        if r == channels {
            vstd::arithmetic::div_mod::lemma_fundamental_div_mod_converse(len, channels, frame, 0);
        } else {
            vstd::arithmetic::div_mod::lemma_fundamental_div_mod_converse(
                len,
                channels,
                frame - 1,
                r,
            );
        }
    } else {
        assert(0int % channels == 0 && 0int / channels == 0) by (nonlinear_arith)
            requires
                channels > 0,
        ;
    }
}

/// Whether the callback treats playback as interrupted: the player's own
/// flag is set, or a flag supplied from outside is present and set.
pub fn interrupt_active(internal: bool, external: Option<bool>) -> (active: bool)
    ensures
        active == (internal || external == Some(true)),
{
    match external {
        Some(flag) => internal || flag,
        None => internal,
    }
}

/// Number of frames in an output buffer of `len` places.
pub fn frames_in(len: usize, channels: usize) -> (frames: usize)
    requires
        channels > 0,
    ensures
        frames == frame_count(len as nat, channels as nat),
        frames <= len,
{
    proof {
        let l = len as int;
        let c = channels as int;
        let q = l / c;
        vstd::arithmetic::div_mod::lemma_fundamental_div_mod(l, c);
        vstd::arithmetic::div_mod::lemma_div_pos_is_pos(l, c);
        vstd::arithmetic::div_mod::lemma_mod_pos_bound(l, c);
        assert(c * q >= q) by (nonlinear_arith)
            requires
                c >= 1,
                q >= 0,
        ;
        if l % c != 0 {
            assert(c != 1) by {
                assert(l % 1 == 0);
            }
            assert(c * q >= 2 * q) by (nonlinear_arith)
                requires
                    c >= 2,
                    q >= 0,
            ;
        }
    }
    if len % channels == 0 {
        len / channels
    } else {
        len / channels + 1
    }
}

/// Fills the output buffer from samples already taken from the queue:
/// frame by frame one sample, or silence once they are used up, written to
/// every channel of the frame. Returns the number of audible samples among
/// those used.
pub fn fan_out(samples: &[u32], out: &mut Vec<u32>, channels: usize) -> (audible: usize)
    requires
        channels > 0,
    ensures
        final(out)@ == rendered(samples@, false, channels as nat, old(out)@.len()),
        audible == audible_count(
            samples@.take(
                taken_count(samples@.len(), frame_count(old(out)@.len(), channels as nat)) as int,
            ),
        ),
{
    let len = out.len();
    let ghost queued = samples@;
    let mut start: usize = 0;
    let mut frame: usize = 0;
    let mut audible: usize = 0;
    proof {
        assert(queued.take(0) =~= Seq::<u32>::empty());
    }
    while start < len
        invariant
            queued == samples@,
            out@.len() == len,
            channels > 0,
            start <= len,
            frame <= start,
            start < len ==> start == frame * channels,
            frame * channels >= start,
            frame > 0 ==> (frame - 1) * channels < len,
            frame == 0 ==> start == 0,
            audible == audible_count(queued.take(taken_count(queued.len(), frame as nat) as int)),
            audible <= frame,
            forall|k: int|
                0 <= k < start ==> #[trigger] out@[k] == frame_sample(
                    queued,
                    false,
                    k / (channels as int),
                ),
        decreases len - start,
    {
        let sample: u32 = if frame < samples.len() {
            proof {
                assert(queued.take(frame + 1).drop_last() =~= queued.take(frame as int));
                assert(queued.take(frame + 1).last() == queued[frame as int]);
            }
            samples[frame]
        } else {
            0
        };
        proof {
            assert(0u32 & 0x7fff_ffffu32 == 0) by (bit_vector);
        }
        if sample & 0x7fff_ffffu32 != 0 {
            audible = audible + 1;
        }
        let end: usize = if len - start < channels {
            len
        } else {
            start + channels
        };
        let ghost base = start;
        let mut j: usize = start;
        while j < end
            invariant
                out@.len() == len,
                channels > 0,
                base <= j <= end <= len,
                base == frame * channels,
                end <= base + channels,
                sample == frame_sample(queued, false, frame as int),
                forall|k: int|
                    0 <= k < j ==> #[trigger] out@[k] == frame_sample(
                        queued,
                        false,
                        k / (channels as int),
                    ),
            decreases end - j,
        {
            proof {
                lemma_frame_of(j as int, frame as int, channels as int);
            }
            out.set(j, sample);
            j = j + 1;
        }
        proof {
            assert((frame + 1) * channels == frame * channels + channels) by (nonlinear_arith);
            assert(((frame + 1) - 1) * channels == frame * channels) by (nonlinear_arith);
        }
        start = end;
        frame = frame + 1;
    }
    proof {
        lemma_frames_done(len as int, frame as int, channels as int);
        assert(out@ =~= rendered(samples@, false, channels as nat, len as nat));
    }
    audible
}

/// The samples that rendering takes from the queue, fanned out without an
/// interrupt, give what rendering the whole queue gives.
proof fn lemma_rendered_from_taken(queued: Seq<u32>, interrupted: bool, channels: nat, len: nat)
    requires
        channels > 0,
    ensures
        rendered(
            queued.take(consumed_count(queued, interrupted, frame_count(len, channels)) as int),
            false,
            channels,
            len,
        ) == rendered(queued, interrupted, channels, len),
{
    let frames = frame_count(len, channels);
    let taken = consumed_count(queued, interrupted, frames) as int;
    let c = channels as int;
    vstd::arithmetic::div_mod::lemma_fundamental_div_mod(len as int, c);
    vstd::arithmetic::div_mod::lemma_mod_pos_bound(len as int, c);
    assert(c * (frames as int) >= len) by (nonlinear_arith)
        requires
            len == c * (len as int / c) + (len as int % c),
            0 <= len as int % c < c,
            frames == (if len as int % c == 0 {
                len as int / c
            } else {
                len as int / c + 1
            }),
    ;
    assert forall|k: int| 0 <= k < len implies #[trigger] rendered(
        queued.take(taken),
        false,
        channels,
        len,
    )[k] == rendered(queued, interrupted, channels, len)[k] by {
        vstd::arithmetic::div_mod::lemma_multiply_divide_lt(k, c, frames as int);
        vstd::arithmetic::div_mod::lemma_div_pos_is_pos(k, c);
    }
    assert(rendered(queued.take(taken), false, channels, len) =~= rendered(
        queued,
        interrupted,
        channels,
        len,
    ));
}

/// Fills the output buffer for one callback from a queue that the caller
/// owns alone. It takes one sample for each frame, as far as the queue has
/// them, into the first places of `scratch`, and fans them out: every
/// channel of a frame gets that frame's sample, and silence once the queue
/// is empty. Under an interrupt it writes silence only and leaves the queue
/// alone.
pub fn render(
    ring: &mut SampleRing,
    scratch: &mut Vec<u32>,
    out: &mut Vec<u32>,
    channels: usize,
    interrupted: bool,
) -> (outcome: RenderOutcome)
    requires
        old(ring).wf(),
        channels > 0,
        old(scratch)@.len() >= frame_count(old(out)@.len(), channels as nat),
    ensures
        final(ring).wf(),
        final(ring).capacity() == old(ring).capacity(),
        final(out)@ == rendered(old(ring)@, interrupted, channels as nat, old(out)@.len()),
        final(ring)@ == old(ring)@.skip(
            consumed_count(
                old(ring)@,
                interrupted,
                frame_count(old(out)@.len(), channels as nat),
            ) as int,
        ),
        final(scratch)@ == old(ring)@.take(
            consumed_count(
                old(ring)@,
                interrupted,
                frame_count(old(out)@.len(), channels as nat),
            ) as int,
        ) + old(scratch)@.skip(
            consumed_count(
                old(ring)@,
                interrupted,
                frame_count(old(out)@.len(), channels as nat),
            ) as int,
        ),
        outcome.samples_read == audible_count(
            old(ring)@.take(
                consumed_count(
                    old(ring)@,
                    interrupted,
                    frame_count(old(out)@.len(), channels as nat),
                ) as int,
            ),
        ),
        outcome.finished == (interrupted || final(ring)@.len() == 0),
{
    let frames = frames_in(out.len(), channels);
    let taken = if interrupted {
        proof {
            assert(old(ring)@.skip(0) =~= old(ring)@);
            assert(old(ring)@.take(0) + old(scratch)@.skip(0) =~= old(scratch)@);
        }
        0
    } else {
        ring.pop_slice(scratch, frames)
    };
    let samples = vstd::slice::slice_subrange(scratch.as_slice(), 0, taken);
    proof {
        assert(samples@ =~= old(ring)@.take(taken as int));
        assert(samples@.take(samples@.len() as int) =~= samples@);
        lemma_rendered_from_taken(old(ring)@, interrupted, channels as nat, out@.len());
    }
    let samples_read = fan_out(samples, out, channels);
    let finished = interrupted || ring.is_empty();
    RenderOutcome { samples_read, finished }
}

/// What one run of the output callback on a shared queue reports.
#[derive(Debug, Clone, Copy, PartialEq, Eq, Structural)]
pub struct SharedRender {
    /// Samples taken from the queue; they stand in the first places of the
    /// scratch buffer.
    pub taken: usize,
    pub outcome: RenderOutcome,
}

/// Fills the output buffer for one callback from the consuming end of a
/// shared queue. It takes at most one sample for each frame, into
/// `scratch`, and fans out what it got; under an interrupt it takes nothing
/// and writes silence. How many samples it gets depends on the producer.
pub fn render_shared(
    end: &mut RingConsumer,
    scratch: &mut Vec<u32>,
    out: &mut Vec<u32>,
    channels: usize,
    interrupted: bool,
) -> (result: SharedRender)
    requires
        channels > 0,
        old(scratch)@.len() >= frame_count(old(out)@.len(), channels as nat),
    ensures
        final(end).capacity() == old(end).capacity(),
        final(scratch)@.len() == old(scratch)@.len(),
        result.taken <= frame_count(old(out)@.len(), channels as nat),
        result.taken <= old(end).capacity(),
        interrupted ==> result.taken == 0 && result.outcome.finished,
        final(out)@ == rendered(
            final(scratch)@.take(result.taken as int),
            false,
            channels as nat,
            old(out)@.len(),
        ),
        result.outcome.samples_read == audible_count(final(scratch)@.take(result.taken as int)),
{
    let frames = frames_in(out.len(), channels);
    let taken = if interrupted {
        0
    } else {
        end.pop_slice(scratch, frames)
    };
    let samples = vstd::slice::slice_subrange(scratch.as_slice(), 0, taken);
    proof {
        assert(samples@ =~= scratch@.take(taken as int));
        assert(samples@.take(samples@.len() as int) =~= samples@);
    }
    let samples_read = fan_out(samples, out, channels);
    let finished = interrupted || end.is_empty();
    SharedRender { taken, outcome: RenderOutcome { samples_read, finished } }
}

/// The player's flags and counter as one thread reads them at one moment.
#[derive(Debug, Clone, Copy, PartialEq, Eq, Structural)]
pub struct PlaybackFlags {
    /// Set to silence the callback and end a running `play`.
    pub interrupt: bool,
    /// Set while queued samples are being played.
    pub playing: bool,
    /// Samples queued and not yet reported as played.
    pub queued_samples: usize,
}

/// How `play` prepares the samples it was given.
#[derive(Debug, Clone, Copy, PartialEq, Eq, Structural)]
pub enum PlayPreparation {
    /// Nothing was given: `play` returns `true` at once and touches no flag.
    NothingToPlay,
    /// Source and device rate agree: the samples are queued as they are.
    AsIs,
    /// The samples are converted to the device rate first.
    Resample,
}

/// Why a running `play` stopped early.
#[derive(Debug, Clone, Copy, PartialEq, Eq, Structural)]
pub enum StopCause {
    /// The player's own interrupt flag was set.
    Interrupt,
    /// The flag supplied from outside was set.
    ExternalInterrupt,
    /// The deadline passed.
    Timeout,
}

/// What `play` does after one look at the flags.
#[derive(Debug, Clone, Copy, PartialEq, Eq, Structural)]
pub enum WaitDecision {
    /// The callback reported the end of playback and no interrupt is set:
    /// `play` returns `true`.
    Completed,
    /// `play` clears the player and returns `false`.
    Stop(StopCause),
    /// `play` blocks for at most `WAIT_SLICE_MS` and looks again.
    KeepWaiting,
}

/// What queueing reported.
#[derive(Debug, Clone, Copy, PartialEq, Eq, Structural)]
pub struct QueueReport {
    /// Samples that entered the queue.
    pub written: usize,
    /// Samples that found no room and were dropped.
    pub dropped: usize,
}

/// The decision `play` takes from the flags. An interrupt comes first, the
/// player's own before the one from outside, so that playback which an
/// interrupt has ended never counts as completed. Without an interrupt the
/// end of playback is natural completion; only then the deadline counts.
pub open spec fn wait_decision(
    playing: bool,
    interrupt: bool,
    external: Option<bool>,
    deadline_passed: bool,
) -> WaitDecision {
    if interrupt {
        WaitDecision::Stop(StopCause::Interrupt)
    } else if external == Some(true) {
        WaitDecision::Stop(StopCause::ExternalInterrupt)
    } else if !playing {
        WaitDecision::Completed
    } else if deadline_passed {
        WaitDecision::Stop(StopCause::Timeout)
    } else {
        WaitDecision::KeepWaiting
    }
}

/// The value `play` returns once it stops waiting; `None` while it waits.
pub open spec fn play_result(decision: WaitDecision) -> Option<bool> {
    match decision {
        WaitDecision::Completed => Some(true),
        WaitDecision::Stop(_) => Some(false),
        WaitDecision::KeepWaiting => None,
    }
}

/// The longest time `play` waits for `samples` samples at `rate` Hz: their
/// playing time in whole milliseconds plus the margin.
pub open spec fn play_timeout_ms(samples: nat, rate: nat) -> nat
    recommends
        rate > 0,
{
    samples * 1000 / rate + PLAYBACK_MARGIN_MS as nat
}

/// Sum of two counts on a counter that wraps round at `usize::MAX`.
pub open spec fn wrapped_sum(a: usize, b: usize) -> usize {
    if a + b <= usize::MAX {
        (a + b) as usize
    } else {
        (a + b - usize::MAX - 1) as usize
    }
}

/// Difference of two counts on a counter that wraps round at zero.
pub open spec fn wrapped_difference(a: usize, b: usize) -> usize {
    if b <= a {
        (a - b) as usize
    } else {
        (a - b + usize::MAX + 1) as usize
    }
}

/// Decides how `play` prepares `len` samples recorded at `input_rate` for a
/// device running at `device_rate`.
pub fn prepare_play(len: usize, input_rate: u32, device_rate: u32) -> (plan: PlayPreparation)
    ensures
        plan == if len == 0 {
            PlayPreparation::NothingToPlay
        } else if device_rate != input_rate {
            PlayPreparation::Resample
        } else {
            PlayPreparation::AsIs
        },
{
    if len == 0 {
        PlayPreparation::NothingToPlay
    } else if device_rate != input_rate {
        PlayPreparation::Resample
    } else {
        PlayPreparation::AsIs
    }
}

/// The samples that `play` queues: the converted ones where conversion was
/// planned and succeeded, the samples as they were given otherwise. A
/// failed conversion therefore plays the samples unconverted.
pub fn samples_to_queue(plan: PlayPreparation, samples: &[u32], converted: Option<Vec<u32>>) -> (queued:
    Vec<u32>)
    ensures
        queued@ == (if plan == PlayPreparation::Resample && converted is Some {
            converted->0@
        } else {
            samples@
        }),
{
    match plan {
        PlayPreparation::Resample => match converted {
            Some(resampled) => resampled,
            None => vstd::slice::slice_to_vec(samples),
        },
        _ => vstd::slice::slice_to_vec(samples),
    }
}

/// The wait bound of `play` in milliseconds, capped at `u64::MAX`.
pub fn playback_timeout_ms(samples: usize, rate: u32) -> (ms: u64)
    requires
        rate > 0,
    ensures
        ms == if play_timeout_ms(samples as nat, rate as nat) <= u64::MAX {
            play_timeout_ms(samples as nat, rate as nat)
        } else {
            u64::MAX as nat
        },
{
    let total: u128 = (samples as u128) * 1000 / (rate as u128) + (PLAYBACK_MARGIN_MS as u128);
    if total > u64::MAX as u128 {
        u64::MAX
    } else {
        total as u64
    }
}

/// One look of a waiting `play` at the flags.
pub fn wait_step(flags: &PlaybackFlags, external: Option<bool>, deadline_passed: bool) -> (decision:
    WaitDecision)
    ensures
        decision == wait_decision(flags.playing, flags.interrupt, external, deadline_passed),
{
    if flags.interrupt {
        WaitDecision::Stop(StopCause::Interrupt)
    } else if interrupt_active(false, external) {
        WaitDecision::Stop(StopCause::ExternalInterrupt)
    } else if !flags.playing {
        WaitDecision::Completed
    } else if deadline_passed {
        WaitDecision::Stop(StopCause::Timeout)
    } else {
        WaitDecision::KeepWaiting
    }
}

/// The value `play` returns for a decision, if it returns.
pub fn play_outcome(decision: WaitDecision) -> (result: Option<bool>)
    ensures
        result == play_result(decision),
{
    match decision {
        WaitDecision::Completed => Some(true),
        WaitDecision::Stop(_) => Some(false),
        WaitDecision::KeepWaiting => None,
    }
}

impl PlaybackFlags {
    /// The flags of a player that has played nothing yet.
    pub fn new() -> (flags: PlaybackFlags)
        ensures
            flags == (PlaybackFlags { interrupt: false, playing: false, queued_samples: 0 }),
    {
        PlaybackFlags { interrupt: false, playing: false, queued_samples: 0 }
    }

    /// Requests the end of the current playback. Calling it again changes
    /// nothing.
    pub fn interrupt(&mut self)
        ensures
            *final(self) == (PlaybackFlags { interrupt: true, ..*old(self) }),
    {
        self.interrupt = true;
    }

    /// First step of `play`: lifts the player's own interrupt, so that an
    /// interrupt asked for from now on ends this `play`.
    pub fn begin_play(&mut self)
        ensures
            *final(self) == (PlaybackFlags { interrupt: false, ..*old(self) }),
    {
        self.interrupt = false;
    }

    /// Takes note of `written` samples that entered the queue: they are
    /// added to the counter, which wraps, and the player counts as playing.
    fn note_queued(&mut self, written: usize)
        ensures
            *final(self) == (PlaybackFlags {
                interrupt: old(self).interrupt,
                playing: true,
                queued_samples: wrapped_sum(old(self).queued_samples, written),
            }),
    {
        let room = usize::MAX - self.queued_samples;
        self.queued_samples = if written <= room {
            self.queued_samples + written
        } else {
            written - room - 1
        };
        self.playing = true;
    }

    /// Queues the samples of a `play`: pushes what fits into the queue, adds
    /// it to the counter (which wraps) and marks the player as playing. The
    /// interrupt flag is left as it is.
    pub fn queue_samples(&mut self, ring: &mut SampleRing, samples: &[u32]) -> (report: QueueReport)
        requires
            old(ring).wf(),
        ensures
            final(ring).wf(),
            final(ring).capacity() == old(ring).capacity(),
            report.written == accepted_count(
                old(ring)@.len(),
                old(ring).capacity(),
                samples@.len(),
            ),
            report.written + report.dropped == samples@.len(),
            final(ring)@ == old(ring)@ + samples@.take(report.written as int),
            *final(self) == (PlaybackFlags {
                interrupt: old(self).interrupt,
                playing: true,
                queued_samples: wrapped_sum(old(self).queued_samples, report.written),
            }),
    {
        let written = ring.push_slice(samples);
        self.note_queued(written);
        QueueReport { written, dropped: samples.len() - written }
    }

    /// Queues the samples of a `play` through the producing end of a shared
    /// queue. How many find room depends on the consumer; the counter and
    /// the playing flag follow what was written.
    pub fn queue_samples_shared(&mut self, end: &mut RingProducer, samples: &[u32]) -> (report:
        QueueReport)
        ensures
            final(end).capacity() == old(end).capacity(),
            report.written + report.dropped == samples@.len(),
            report.written <= old(end).capacity(),
            *final(self) == (PlaybackFlags {
                interrupt: old(self).interrupt,
                playing: true,
                queued_samples: wrapped_sum(old(self).queued_samples, report.written),
            }),
    {
        let written = end.push_slice(samples);
        self.note_queued(written);
        QueueReport { written, dropped: samples.len() - written }
    }

    /// Takes note of one run of the output callback: the audible samples it
    /// read leave the counter (which wraps), and the end of playback clears
    /// `playing`. Returns whether the waiters are to be woken.
    pub fn after_render(&mut self, outcome: &RenderOutcome) -> (notify: bool)
        ensures
            notify == outcome.finished,
            final(self).interrupt == old(self).interrupt,
            final(self).playing == (old(self).playing && !outcome.finished),
            final(self).queued_samples == wrapped_difference(
                old(self).queued_samples,
                outcome.samples_read,
            ),
    {
        if outcome.samples_read > self.queued_samples {
            self.queued_samples = usize::MAX - (outcome.samples_read - self.queued_samples - 1);
        } else {
            self.queued_samples = self.queued_samples - outcome.samples_read;
        }
        if outcome.finished {
            self.playing = false;
        }
        outcome.finished
    }

    /// First half of `clear`: silences the callback, forgets the queued
    /// count and ends the playing state.
    pub fn begin_clear(&mut self)
        ensures
            *final(self) == (PlaybackFlags { interrupt: true, playing: false, queued_samples: 0 }),
    {
        self.interrupt = true;
        self.queued_samples = 0;
        self.playing = false;
    }

    /// Second half of `clear`, after `FLUSH_DELAY_MS`: lifts the interrupt so
    /// that the next `play` is heard.
    pub fn end_clear(&mut self)
        ensures
            *final(self) == (PlaybackFlags { interrupt: false, ..*old(self) }),
    {
        self.interrupt = false;
    }
}

/// An interrupt ends `play` with `false`: once `interrupt` has been called
/// and until it is lifted, every look at the flags stops the wait, whatever
/// the playing flag, the outside flag and the clock say, also after the
/// callback has cleared the playing flag on account of the interrupt.
/// Meanwhile the callback writes silence only and takes nothing from the
/// queue.
pub proof fn lemma_interrupt_stops_play(
    flags: PlaybackFlags,
    external: Option<bool>,
    deadline_passed: bool,
    queued: Seq<u32>,
    channels: nat,
    len: nat,
)
    requires
        flags.interrupt,
        channels > 0,
    ensures
        wait_decision(flags.playing, flags.interrupt, external, deadline_passed)
            == WaitDecision::Stop(StopCause::Interrupt),
        play_result(wait_decision(flags.playing, flags.interrupt, external, deadline_passed))
            == Some(false),
        consumed_count(queued, true, frame_count(len, channels)) == 0,
        forall|k: int| 0 <= k < len ==> #[trigger] rendered(queued, true, channels, len)[k] == 0,
{
}

/// `play` returns `true` only for natural completion: the playing flag is
/// down and neither interrupt is set.
pub proof fn lemma_true_only_for_natural_completion(
    flags: PlaybackFlags,
    external: Option<bool>,
    deadline_passed: bool,
)
    ensures
        play_result(wait_decision(flags.playing, flags.interrupt, external, deadline_passed))
            == Some(true) <==> !flags.playing && !flags.interrupt && external != Some(true),
{
}

/// `interrupt` is idempotent: a second call leaves the flags as the first
/// call left them.
pub proof fn lemma_interrupt_idempotent(flags: PlaybackFlags)
    ensures
        (PlaybackFlags { interrupt: true, ..(PlaybackFlags { interrupt: true, ..flags }) }) == (
        PlaybackFlags { interrupt: true, ..flags }),
{
}

} // verus!
