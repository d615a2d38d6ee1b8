use system_audio::ring::{AudioError, AudioWindow};

fn recording_window(capacity: usize, window: usize) -> AudioWindow<f32> {
    let mut w = AudioWindow::new(capacity, window, 0.0f32);
    w.set_recording(true);
    w
}

#[test]
fn snapshot_returns_last_window_of_interleaved_samples() {
    let mut w = recording_window(12, 6);
    let samples: Vec<f32> = (1..=12).map(|x| x as f32).collect();
    w.push_block(&samples);
    assert_eq!(w.snapshot(), Ok(vec![7.0, 8.0, 9.0, 10.0, 11.0, 12.0]));
}

#[test]
fn snapshot_wraps_around_after_overfill() {
    let mut w = recording_window(5, 5);
    for x in 0..8 {
        w.push(x as f32);
    }
    assert_eq!(w.snapshot(), Ok(vec![3.0, 4.0, 5.0, 6.0, 7.0]));
}

#[test]
fn snapshot_keeps_last_samples_after_many_pushes() {
    let mut w = AudioWindow::new(7, 3, 0i32);
    w.set_recording(true);
    let samples: Vec<i32> = (0..100).collect();
    w.push_block(&samples[..40]);
    w.push_block(&samples[40..]);
    assert_eq!(w.snapshot(), Ok(vec![97, 98, 99]));
}

#[test]
fn snapshot_before_filling_includes_initial_silence() {
    let mut w = recording_window(6, 4);
    w.push_block(&[0.5, -0.5]);
    assert_eq!(w.snapshot(), Ok(vec![0.0, 0.0, 0.5, -0.5]));
}

#[test]
fn snapshot_of_untouched_window_is_empty_window() {
    let w = recording_window(6, 4);
    assert_eq!(w.snapshot(), Err(AudioError::EmptyWindow));
}

#[test]
fn push_without_recording_is_ignored() {
    let mut w = AudioWindow::new(4, 4, 0.0f32);
    w.push(1.0);
    w.push_block(&[2.0, 3.0]);
    assert_eq!(w.snapshot(), Err(AudioError::EmptyWindow));
}

#[test]
fn configure_clamps_window_length() {
    let mut w = AudioWindow::new(10, 3, 0u8);
    assert_eq!(w.window_samples(), 3);
    w.configure(0);
    assert_eq!(w.window_samples(), 1);
    w.configure(1000);
    assert_eq!(w.window_samples(), 10);
    w.configure(4);
    assert_eq!(w.window_samples(), 4);
    assert_eq!(w.capacity(), 10);
    let big = AudioWindow::new(2, usize::MAX, 0u8);
    assert_eq!(big.window_samples(), 2);
}

#[test]
fn full_window_after_exact_capacity() {
    let mut w = AudioWindow::new(4, 4, 0u16);
    w.set_recording(true);
    w.push_block(&[1, 2, 3, 4]);
    assert_eq!(w.snapshot(), Ok(vec![1, 2, 3, 4]));
    w.push(5);
    assert_eq!(w.snapshot(), Ok(vec![2, 3, 4, 5]));
}
