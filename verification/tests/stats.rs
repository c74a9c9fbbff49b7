use coldfusion::stats::{PerformanceStats, SAMPLE_WINDOW_NANOS};

#[test]
fn new_counter_is_empty() {
    let s = PerformanceStats::new();
    assert_eq!(s.frame_count(), 0);
    assert_eq!(s.last_sample(), None);
}

#[test]
fn frames_inside_window_are_counted() {
    let mut s = PerformanceStats::new();
    assert!(!s.record_frame(10_000_000));
    assert!(!s.record_frame(50_000_000));
    assert!(!s.record_frame(99_999_999));
    assert_eq!(s.frame_count(), 3);
    assert_eq!(s.last_sample(), None);
}

#[test]
fn window_end_takes_sample_and_restarts() {
    let mut s = PerformanceStats::new();
    assert!(!s.record_frame(40_000_000));
    assert!(s.record_frame(SAMPLE_WINDOW_NANOS));
    assert_eq!(s.frame_count(), 0);
    assert_eq!(s.last_sample(), Some((2, 100_000_000)));
}

#[test]
fn sample_is_kept_until_next_window_ends() {
    let mut s = PerformanceStats::new();
    assert!(s.record_frame(150_000_000));
    assert_eq!(s.last_sample(), Some((1, 150_000_000)));
    assert!(!s.record_frame(20_000_000));
    assert_eq!(s.last_sample(), Some((1, 150_000_000)));
    assert_eq!(s.frame_count(), 1);
    assert!(s.record_frame(120_000_000));
    assert_eq!(s.last_sample(), Some((2, 120_000_000)));
}

#[test]
fn frames_are_conserved_over_a_run() {
    // Every frame recorded is either in a sample taken or in the open window.
    let elapsed = [10, 120_000_000, 5, 6, 7, 100_000_000, 1, 2];
    let mut s = PerformanceStats::new();
    let mut sampled = 0u64;
    for e in elapsed {
        if s.record_frame(e) {
            sampled += s.last_sample().unwrap().0;
        }
    }
    assert_eq!(sampled, 6);
    assert_eq!(s.frame_count(), 2);
    assert_eq!(sampled + s.frame_count(), elapsed.len() as u64);
}

#[test]
fn fps_from_sample() {
    // 12 frames in 0.2 s is 60 frames per second.
    let mut s = PerformanceStats::new();
    for _ in 0..11 {
        assert!(!s.record_frame(1_000));
    }
    assert!(s.record_frame(200_000_000));
    let (frames, nanos) = s.last_sample().unwrap();
    let fps = frames as f64 / (nanos as f64 / 1e9);
    assert_eq!(fps, 60.0);
}
