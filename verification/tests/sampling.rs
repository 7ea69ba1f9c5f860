use rays_core::sampling::{SampleLoop, CONVERGENCE_INTERVAL};

#[test]
fn interval_is_sixty_four() {
    assert_eq!(CONVERGENCE_INTERVAL, 64);
}

#[test]
fn budget_bounds_the_attempts() {
    let mut state = SampleLoop::new(3);
    assert!(state.wants_more());
    assert!(!state.record_accumulated());
    assert!(state.wants_more());
    state.record_skipped();
    assert!(state.wants_more());
    assert!(!state.record_accumulated());
    assert!(!state.wants_more());
    // Two of the three attempts accumulated.
    assert_eq!(state.sample_count(), 2);
}

#[test]
fn skipped_samples_do_not_count() {
    let mut state = SampleLoop::new(10);
    state.record_skipped();
    state.record_skipped();
    assert_eq!(state.sample_count(), 0);
    state.record_accumulated();
    assert_eq!(state.sample_count(), 1);
}

#[test]
fn checkpoint_after_every_interval() {
    let mut state = SampleLoop::new(200);
    for i in 1..=200 {
        let checkpoint = state.record_accumulated();
        assert_eq!(checkpoint, i % 64 == 0, "sample {i}");
    }
}

#[test]
fn convergence_stops_sampling() {
    let mut state = SampleLoop::new(4096);
    assert!(state.wants_more());
    state.record_accumulated();
    state.mark_converged();
    assert!(!state.wants_more());
    assert_eq!(state.sample_count(), 1);
}

#[test]
fn constant_pixel_stops_at_second_checkpoint() {
    // A pixel whose every sample has the same luminance: the first
    // checkpoint records it, the second finds no change and converges, so
    // sampling ends at sample 128 of a 4096-sample budget.
    let mut state = SampleLoop::new(4096);
    let mut checkpoint_luma: Option<f32> = None;
    let luminance: f32 = 0.85;
    while state.wants_more() {
        if state.record_accumulated() {
            match checkpoint_luma {
                Some(last) if (last - luminance).abs() <= f32::EPSILON * 10.0 => {
                    state.mark_converged();
                }
                _ => checkpoint_luma = Some(luminance),
            }
        }
    }
    assert_eq!(state.sample_count(), 2 * CONVERGENCE_INTERVAL);
}
