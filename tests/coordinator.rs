use system_audio::lifecycle::{
    samples_for_seconds, Coordinator, Phase, StartOutcome, StartStep, StopStep, SystemAudioStatus,
};
use system_audio::ring::AudioError;

#[test]
fn samples_for_seconds_counts_both_channels() {
    assert_eq!(samples_for_seconds(0), 0);
    assert_eq!(samples_for_seconds(1), 96_000);
    assert_eq!(samples_for_seconds(30), 2_880_000);
}

#[test]
fn fresh_coordinator_has_empty_window() {
    let c = Coordinator::new(0.0f32);
    assert_eq!(c.snapshot(), Err(AudioError::EmptyWindow));
    assert_eq!(c.window_samples(), 2_880_000);
    assert_eq!(
        c.status(true),
        SystemAudioStatus { recording: false, buffer_seconds: 30, supported: true }
    );
}

#[test]
fn start_twice_begins_one_session() {
    let mut c = Coordinator::with_capacity(96_000 * 4, 96_000, 0.0f32);
    assert_eq!(c.begin_start(2), StartStep::BeginCapture);
    assert_eq!(c.phase(), Phase::Starting);
    assert!(c.is_recording());
    assert_eq!(c.window_samples(), 192_000);
    assert_eq!(c.begin_start(3), StartStep::AlreadyActive);
    assert_eq!(c.finish_start(true), StartOutcome::Active);
    assert_eq!(c.phase(), Phase::Recording);
    assert_eq!(c.begin_start(3), StartStep::AlreadyActive);
    assert_eq!(c.window_samples(), 192_000);
}

#[test]
fn failed_start_rolls_back() {
    let mut c = Coordinator::with_capacity(12, 6, 0.0f32);
    assert_eq!(c.begin_start(1), StartStep::BeginCapture);
    assert_eq!(c.finish_start(false), StartOutcome::RolledBack);
    assert_eq!(c.phase(), Phase::Idle);
    assert!(!c.is_recording());
    c.push_samples(&[1.0, 2.0]);
    assert_eq!(c.snapshot(), Err(AudioError::EmptyWindow));
}

#[test]
fn push_after_stop_leaves_snapshot_unchanged() {
    let mut c = Coordinator::with_capacity(12, 6, 0.0f32);
    c.begin_start(1);
    c.finish_start(true);
    let samples: Vec<f32> = (1..=12).map(|x| x as f32).collect();
    c.push_samples(&samples);
    let before = c.snapshot();
    assert_eq!(before, Ok(samples.clone()));
    assert_eq!(c.begin_stop(), StopStep::EndCapture);
    assert_eq!(c.phase(), Phase::Stopping);
    c.push_samples(&[99.0, 98.0]);
    c.push_sample(97.0);
    assert_eq!(c.snapshot(), before);
    c.finish_stop();
    assert_eq!(c.phase(), Phase::Idle);
    c.push_samples(&[50.0]);
    assert_eq!(c.snapshot(), before);
}

#[test]
fn stop_when_idle_is_harmless() {
    let mut c = Coordinator::with_capacity(4, 4, 0i16);
    assert_eq!(c.begin_stop(), StopStep::NothingToEnd);
    c.finish_stop();
    assert_eq!(c.phase(), Phase::Idle);
    assert_eq!(c.begin_start(1), StartStep::BeginCapture);
}

#[test]
fn start_during_stop_is_refused_and_late_start_is_superseded() {
    let mut c = Coordinator::with_capacity(4, 4, 0i16);
    c.begin_start(1);
    assert_eq!(c.begin_stop(), StopStep::EndCapture);
    assert_eq!(c.begin_start(1), StartStep::StopInProgress);
    assert_eq!(c.finish_start(true), StartOutcome::Superseded);
    assert_eq!(c.phase(), Phase::Stopping);
    c.finish_stop();
    assert_eq!(c.phase(), Phase::Idle);
}

#[test]
fn window_length_changes_only_when_idle() {
    let mut c = Coordinator::with_capacity(96_000 * 10, 96_000, 0u8);
    c.set_buffer_seconds(5);
    assert_eq!(c.window_samples(), 480_000);
    c.set_buffer_seconds(0);
    assert_eq!(c.window_samples(), 1);
    c.set_buffer_seconds(50);
    assert_eq!(c.window_samples(), 960_000);
    c.begin_start(2);
    c.finish_start(true);
    c.set_buffer_seconds(7);
    assert_eq!(c.window_samples(), 192_000);
    let s = c.status(false);
    assert_eq!(s, SystemAudioStatus { recording: true, buffer_seconds: 2, supported: false });
}
