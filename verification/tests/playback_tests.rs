use voice_assistant::playback::{
    fan_out, frames_in, interrupt_active, play_outcome, playback_timeout_ms, prepare_play, render,
    render_shared, samples_to_queue, wait_step, PlayPreparation, PlaybackFlags, RenderOutcome,
    StopCause, WaitDecision,
};
use voice_assistant::ring::SampleRing;

fn bits(values: &[f32]) -> Vec<u32> {
    values.iter().map(|v| v.to_bits()).collect()
}

#[test]
fn render_fans_each_sample_out_to_every_channel() {
    let mut ring = SampleRing::new(16);
    ring.push_slice(&bits(&[0.5, -0.25, 1.0]));
    let mut out = vec![7u32; 4];
    let outcome = render(&mut ring, &mut vec![0u32; 8], &mut out, 2, false);
    assert_eq!(out, bits(&[0.5, 0.5, -0.25, -0.25]));
    assert_eq!(outcome.samples_read, 2);
    assert!(!outcome.finished);
    assert_eq!(ring.occupied_len(), 1);
}

#[test]
fn render_fills_with_silence_on_underrun() {
    let mut ring = SampleRing::new(16);
    ring.push_slice(&bits(&[0.5]));
    let mut out = vec![7u32; 6];
    let outcome = render(&mut ring, &mut vec![0u32; 8], &mut out, 2, false);
    assert_eq!(out, bits(&[0.5, 0.5, 0.0, 0.0, 0.0, 0.0]));
    assert_eq!(outcome.samples_read, 1);
    assert!(outcome.finished);
    assert!(ring.is_empty());
}

#[test]
fn render_under_interrupt_is_silent_and_keeps_the_queue() {
    let mut ring = SampleRing::new(16);
    ring.push_slice(&bits(&[0.5, 0.25]));
    let mut out = vec![7u32; 4];
    let outcome = render(&mut ring, &mut vec![0u32; 8], &mut out, 2, true);
    assert_eq!(out, vec![0u32; 4]);
    assert_eq!(outcome, RenderOutcome { samples_read: 0, finished: true });
    assert_eq!(ring.occupied_len(), 2);
}

#[test]
fn render_does_not_count_zero_samples() {
    let mut ring = SampleRing::new(16);
    ring.push_slice(&bits(&[0.0, -0.0, 0.125, f32::NAN]));
    let mut out = vec![7u32; 4];
    let outcome = render(&mut ring, &mut vec![0u32; 8], &mut out, 1, false);
    assert_eq!(outcome.samples_read, 2);
    assert!(outcome.finished);
    assert_eq!(out[1], (-0.0f32).to_bits());
}

#[test]
fn render_handles_a_short_last_frame() {
    let mut ring = SampleRing::new(16);
    ring.push_slice(&[11, 12, 13]);
    let mut out = vec![0u32; 5];
    let outcome = render(&mut ring, &mut vec![0u32; 8], &mut out, 2, false);
    assert_eq!(out, vec![11, 11, 12, 12, 13]);
    assert_eq!(outcome.samples_read, 3);
    assert!(outcome.finished);
}

#[test]
fn render_into_an_empty_buffer_takes_nothing() {
    let mut ring = SampleRing::new(4);
    ring.push_slice(&[1]);
    let mut out: Vec<u32> = Vec::new();
    let outcome = render(&mut ring, &mut vec![0u32; 8], &mut out, 2, false);
    assert_eq!(outcome, RenderOutcome { samples_read: 0, finished: false });
    assert_eq!(ring.occupied_len(), 1);
}

#[test]
fn interrupt_active_reads_both_flags() {
    assert!(!interrupt_active(false, None));
    assert!(!interrupt_active(false, Some(false)));
    assert!(interrupt_active(false, Some(true)));
    assert!(interrupt_active(true, None));
    assert!(interrupt_active(true, Some(false)));
}

#[test]
fn prepare_play_picks_the_route() {
    assert_eq!(prepare_play(0, 24000, 48000), PlayPreparation::NothingToPlay);
    assert_eq!(prepare_play(0, 24000, 24000), PlayPreparation::NothingToPlay);
    assert_eq!(prepare_play(10, 24000, 24000), PlayPreparation::AsIs);
    assert_eq!(prepare_play(10, 24000, 48000), PlayPreparation::Resample);
}

#[test]
fn playback_timeout_is_duration_plus_margin() {
    assert_eq!(playback_timeout_ms(48000, 48000), 2000);
    assert_eq!(playback_timeout_ms(24000, 48000), 1500);
    assert_eq!(playback_timeout_ms(1, 48000), 1000);
    assert_eq!(playback_timeout_ms(0, 1), 1000);
    assert_eq!(playback_timeout_ms(usize::MAX, 1), u64::MAX);
}

#[test]
fn wait_step_orders_its_reasons() {
    let done = PlaybackFlags { interrupt: false, playing: false, queued_samples: 0 };
    assert_eq!(wait_step(&done, None, true), WaitDecision::Completed);
    assert_eq!(wait_step(&done, Some(false), false), WaitDecision::Completed);
    assert_eq!(wait_step(&done, Some(true), false), WaitDecision::Stop(StopCause::ExternalInterrupt));
    let cut_short = PlaybackFlags { interrupt: true, playing: false, queued_samples: 0 };
    assert_eq!(wait_step(&cut_short, None, false), WaitDecision::Stop(StopCause::Interrupt));
    assert_eq!(wait_step(&cut_short, Some(true), true), WaitDecision::Stop(StopCause::Interrupt));
    let cut = PlaybackFlags { interrupt: true, playing: true, queued_samples: 3 };
    assert_eq!(wait_step(&cut, Some(true), true), WaitDecision::Stop(StopCause::Interrupt));
    let busy = PlaybackFlags { interrupt: false, playing: true, queued_samples: 3 };
    assert_eq!(wait_step(&busy, Some(true), true), WaitDecision::Stop(StopCause::ExternalInterrupt));
    assert_eq!(wait_step(&busy, Some(false), true), WaitDecision::Stop(StopCause::Timeout));
    assert_eq!(wait_step(&busy, None, true), WaitDecision::Stop(StopCause::Timeout));
    assert_eq!(wait_step(&busy, None, false), WaitDecision::KeepWaiting);
}

#[test]
fn play_outcome_is_true_only_on_completion() {
    assert_eq!(play_outcome(WaitDecision::Completed), Some(true));
    assert_eq!(play_outcome(WaitDecision::Stop(StopCause::Interrupt)), Some(false));
    assert_eq!(play_outcome(WaitDecision::Stop(StopCause::ExternalInterrupt)), Some(false));
    assert_eq!(play_outcome(WaitDecision::Stop(StopCause::Timeout)), Some(false));
    assert_eq!(play_outcome(WaitDecision::KeepWaiting), None);
}

#[test]
fn interrupt_during_play_makes_play_return_false() {
    let mut ring = SampleRing::new(8);
    let mut flags = PlaybackFlags::new();
    flags.begin_play();
    let report = flags.queue_samples(&mut ring, &[1, 2, 3]);
    assert_eq!(report.written, 3);
    assert_eq!(report.dropped, 0);
    assert_eq!(flags, PlaybackFlags { interrupt: false, playing: true, queued_samples: 3 });
    flags.interrupt();
    flags.interrupt();
    assert_eq!(flags, PlaybackFlags { interrupt: true, playing: true, queued_samples: 3 });
    let decision = wait_step(&flags, None, false);
    assert_eq!(play_outcome(decision), Some(false));
    let mut out = vec![7u32; 4];
    let outcome = render(&mut ring, &mut vec![0u32; 4], &mut out, 2, interrupt_active(flags.interrupt, None));
    assert!(flags.after_render(&outcome));
    assert_eq!(flags, PlaybackFlags { interrupt: true, playing: false, queued_samples: 3 });
    assert_eq!(out, vec![0u32; 4]);
    assert_eq!(ring.occupied_len(), 3);
    assert_eq!(play_outcome(wait_step(&flags, None, false)), Some(false));
    assert_eq!(play_outcome(wait_step(&flags, Some(false), true)), Some(false));
    flags.begin_clear();
    assert_eq!(flags, PlaybackFlags { interrupt: true, playing: false, queued_samples: 0 });
    flags.end_clear();
    assert_eq!(flags, PlaybackFlags { interrupt: false, playing: false, queued_samples: 0 });
}

#[test]
fn queueing_reports_overflow() {
    let mut ring = SampleRing::new(2);
    let mut flags = PlaybackFlags { interrupt: true, playing: false, queued_samples: usize::MAX };
    flags.begin_play();
    assert_eq!(flags, PlaybackFlags { interrupt: false, playing: false, queued_samples: usize::MAX });
    let report = flags.queue_samples(&mut ring, &[1, 2, 3]);
    assert_eq!(report.written, 2);
    assert_eq!(report.dropped, 1);
    assert_eq!(flags, PlaybackFlags { interrupt: false, playing: true, queued_samples: 1 });
    flags.interrupt();
    let full = flags.queue_samples(&mut ring, &[4]);
    assert_eq!((full.written, full.dropped), (0, 1));
    assert_eq!(flags, PlaybackFlags { interrupt: true, playing: true, queued_samples: 1 });
}

#[test]
fn after_render_updates_counter_and_playing() {
    let mut flags = PlaybackFlags { interrupt: false, playing: true, queued_samples: 5 };
    assert!(!flags.after_render(&RenderOutcome { samples_read: 2, finished: false }));
    assert_eq!(flags, PlaybackFlags { interrupt: false, playing: true, queued_samples: 3 });
    assert!(flags.after_render(&RenderOutcome { samples_read: 4, finished: true }));
    assert_eq!(flags, PlaybackFlags { interrupt: false, playing: false, queued_samples: usize::MAX });
}

#[test]
fn frames_round_up() {
    assert_eq!(frames_in(0, 2), 0);
    assert_eq!(frames_in(4, 2), 2);
    assert_eq!(frames_in(5, 2), 3);
    assert_eq!(frames_in(5, 1), 5);
    assert_eq!(frames_in(1, 8), 1);
    assert_eq!(frames_in(usize::MAX, 2), usize::MAX / 2 + 1);
}

#[test]
fn fan_out_repeats_each_sample_and_pads_with_silence() {
    let mut out = vec![7u32; 7];
    assert_eq!(fan_out(&bits(&[0.5, 0.0, -1.0, 2.0, 3.0]), &mut out, 2), 3);
    assert_eq!(out, bits(&[0.5, 0.5, 0.0, 0.0, -1.0, -1.0, 2.0]));
    let mut short = vec![7u32; 6];
    assert_eq!(fan_out(&bits(&[0.5]), &mut short, 3), 1);
    assert_eq!(short, bits(&[0.5, 0.5, 0.5, 0.0, 0.0, 0.0]));
}

#[test]
fn shared_render_matches_the_plain_one() {
    let (mut producer, mut consumer) = SampleRing::new(16).split();
    producer.push_slice(&bits(&[0.5, -0.25, 1.0]));
    let mut scratch = vec![0u32; 4];
    let mut out = vec![7u32; 4];
    let first = render_shared(&mut consumer, &mut scratch, &mut out, 2, false);
    assert_eq!(first.taken, 2);
    assert_eq!(first.outcome, RenderOutcome { samples_read: 2, finished: false });
    assert_eq!(out, bits(&[0.5, 0.5, -0.25, -0.25]));
    let cut = render_shared(&mut consumer, &mut scratch, &mut out, 2, true);
    assert_eq!(cut.taken, 0);
    assert_eq!(cut.outcome, RenderOutcome { samples_read: 0, finished: true });
    assert_eq!(out, vec![0u32; 4]);
    assert_eq!(consumer.occupied_len(), 1);
    let last = render_shared(&mut consumer, &mut scratch, &mut out, 2, false);
    assert_eq!(last.taken, 1);
    assert_eq!(last.outcome, RenderOutcome { samples_read: 1, finished: true });
    assert_eq!(out, bits(&[1.0, 1.0, 0.0, 0.0]));
}

#[test]
fn shared_queueing_reports_overflow() {
    let (mut producer, mut consumer) = SampleRing::new(2).split();
    let mut flags = PlaybackFlags::new();
    let report = flags.queue_samples_shared(&mut producer, &[1, 2, 3]);
    assert_eq!((report.written, report.dropped), (2, 1));
    assert_eq!(flags, PlaybackFlags { interrupt: false, playing: true, queued_samples: 2 });
    let mut out = vec![0u32; 2];
    assert_eq!(consumer.pop_slice(&mut out, 2), 2);
    assert_eq!(out, vec![1, 2]);
}

#[test]
fn natural_completion_gives_true() {
    let mut ring = SampleRing::new(8);
    let mut flags = PlaybackFlags::new();
    flags.begin_play();
    flags.queue_samples(&mut ring, &bits(&[0.5, 0.25]));
    assert_eq!(play_outcome(wait_step(&flags, Some(false), false)), None);
    let mut scratch = vec![0u32; 4];
    let mut out = vec![0u32; 4];
    let outcome = render(&mut ring, &mut scratch, &mut out, 2, false);
    assert_eq!(&scratch[..2], &bits(&[0.5, 0.25])[..]);
    assert!(flags.after_render(&outcome));
    assert_eq!(play_outcome(wait_step(&flags, Some(false), true)), Some(true));
}

#[test]
fn failed_conversion_plays_the_samples_as_given() {
    assert_eq!(samples_to_queue(PlayPreparation::Resample, &[1, 2], Some(vec![3, 4, 5])), vec![3, 4, 5]);
    assert_eq!(samples_to_queue(PlayPreparation::Resample, &[1, 2], None), vec![1, 2]);
    assert_eq!(samples_to_queue(PlayPreparation::AsIs, &[1, 2], Some(vec![3])), vec![1, 2]);
    assert_eq!(samples_to_queue(PlayPreparation::AsIs, &[1, 2], None), vec![1, 2]);
    assert_eq!(samples_to_queue(PlayPreparation::NothingToPlay, &[], None), Vec::<u32>::new());
}
