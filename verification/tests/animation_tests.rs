use stars::animation::{animation_step, next_frame_index, AnimationStep};

#[test]
fn advances_and_wraps() {
    assert_eq!(next_frame_index(0, 10), 1);
    assert_eq!(next_frame_index(8, 10), 9);
    assert_eq!(next_frame_index(9, 10), 0);
    assert_eq!(next_frame_index(0, 1), 0);
}

#[test]
fn out_of_range_index_restarts() {
    assert_eq!(next_frame_index(15, 10), 0);
}

#[test]
fn cycle_returns_after_frame_count_steps() {
    for start in 0..10 {
        let mut f = start;
        for step in 1..=25 {
            f = next_frame_index(f, 10);
            assert_eq!(f, (start + step) % 10);
        }
    }
}

#[test]
fn tick_without_elapsed_interval_keeps_frame() {
    assert_eq!(
        animation_step(4, 10, false),
        AnimationStep { frame_idx: 4, restart_clock: false }
    );
    assert_eq!(
        animation_step(0, 0, false),
        AnimationStep { frame_idx: 0, restart_clock: false }
    );
}

#[test]
fn tick_with_elapsed_interval_advances() {
    assert_eq!(
        animation_step(4, 10, true),
        AnimationStep { frame_idx: 5, restart_clock: true }
    );
    assert_eq!(
        animation_step(9, 10, true),
        AnimationStep { frame_idx: 0, restart_clock: true }
    );
}
