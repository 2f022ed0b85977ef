use iced_wgpu_embed::Diagnostics;

#[test]
fn new_diagnostics_starts_at_zero() {
    let diag = Diagnostics::new();
    assert_eq!(diag.frame_time_us(), 0);
    assert_eq!(diag.underrun_count(), 0);
}

#[test]
fn record_and_read_frame_time() {
    let diag = Diagnostics::new();
    diag.record_frame_time_us(16_666);
    assert_eq!(diag.frame_time_us(), 16_666);

    // Overwrites previous value
    diag.record_frame_time_us(8_333);
    assert_eq!(diag.frame_time_us(), 8_333);
}

#[test]
fn increment_underruns_accumulates() {
    let diag = Diagnostics::new();
    diag.increment_underruns();
    diag.increment_underruns();
    diag.increment_underruns();
    assert_eq!(diag.underrun_count(), 3);
}

#[test]
fn default_is_same_as_new() {
    let diag = Diagnostics::default();
    assert_eq!(diag.frame_time_us(), 0);
    assert_eq!(diag.underrun_count(), 0);
}

#[test]
fn recording_frame_time_leaves_underruns_alone() {
    let diag = Diagnostics::new();
    diag.increment_underruns();
    diag.record_frame_time_us(42);
    assert_eq!(diag.underrun_count(), 1);
    assert_eq!(diag.frame_time_us(), 42);
}

#[test]
fn diagnostics_shared_between_threads_of_one_arc() {
    let diag = std::sync::Arc::new(Diagnostics::new());
    let other = diag.clone();
    other.record_frame_time_us(7);
    other.increment_underruns();
    assert_eq!(diag.frame_time_us(), 7);
    assert_eq!(diag.underrun_count(), 1);
}
