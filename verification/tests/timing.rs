use swerve_sim_3d::timing::{draw_due, sleep_time, RedrawTimer};

#[test]
fn redraw_sets_the_next_target_one_frame_after_now() {
    let mut t = RedrawTimer::new(100);
    assert!(t.after_redraw(250, 33));
    assert_eq!(t.render_target, 283);
    assert!(!t.after_redraw(260, 33));
    assert_eq!(t.render_target, 283);
}

#[test]
fn new_events_catch_up_one_frame_at_a_time() {
    let mut t = RedrawTimer::new(100);
    assert!(t.new_events(200, 33));
    assert_eq!(t.render_target, 133);
    assert!(t.new_events(200, 33));
    assert_eq!(t.render_target, 166);
    assert!(t.new_events(200, 33));
    assert_eq!(t.render_target, 199);
    assert!(t.new_events(200, 33));
    assert_eq!(t.render_target, 232);
    assert!(!t.new_events(200, 33));
    assert_eq!(t.render_target, 232);
}

#[test]
fn draws_follow_the_period() {
    assert!(draw_due(1_000, 16_666_666, 16_667_666));
    assert!(!draw_due(1_000, 16_666_666, 16_667_665));
    assert!(!draw_due(1_000, 0, 999));
    assert!(draw_due(u64::MAX, 0, u64::MAX));
    assert!(!draw_due(u64::MAX, 1, u64::MAX));
}

#[test]
fn sleep_fills_the_rest_of_the_budget() {
    assert_eq!(sleep_time(3_000_000, 20_000_000), Some(17_000_000));
    assert_eq!(sleep_time(20_000_000, 20_000_000), Some(0));
    assert_eq!(sleep_time(20_000_001, 20_000_000), None);
}
