use xpbd::world::{PhysicsPlugin, DEFAULT_DELTA_TIME, DEFAULT_MAX_TICKS_PER_FRAME};

#[test]
fn one_whole_timestep_runs_all_substeps_and_drains_the_accumulator() {
    let mut w = PhysicsPlugin::default().build();
    w.step(DEFAULT_DELTA_TIME);
    assert_eq!(w.substeps_last_frame, 20);
    assert_eq!(w.loop_state.accumulator, 0);
}

#[test]
fn a_short_frame_runs_nothing_and_keeps_the_remainder() {
    let mut w = PhysicsPlugin::default().build();
    let half = DEFAULT_DELTA_TIME / 2;
    w.step(half);
    assert_eq!(w.substeps_last_frame, 0);
    assert_eq!(w.loop_state.accumulator, half);
    // the second half completes one whole timestep
    w.step(DEFAULT_DELTA_TIME - half);
    assert_eq!(w.substeps_last_frame, 20);
    assert_eq!(w.loop_state.accumulator, 0);
}

#[test]
fn catch_up_is_capped_per_frame() {
    let mut w = PhysicsPlugin::default().build();
    let stall = DEFAULT_DELTA_TIME * 10;
    w.step(stall);
    let cap = DEFAULT_MAX_TICKS_PER_FRAME as u64;
    assert_eq!(w.substeps_last_frame, cap * 20);
    assert_eq!(
        w.loop_state.accumulator,
        stall - (cap as i64) * DEFAULT_DELTA_TIME
    );
    // the remainder is worked off over later frames
    w.step(0);
    assert_eq!(w.substeps_last_frame, cap * 20);
    w.step(0);
    assert_eq!(w.substeps_last_frame, 2 * 20);
    assert_eq!(w.loop_state.accumulator, 0);
}

#[test]
fn a_fractional_surplus_stays_in_the_accumulator() {
    let mut w = PhysicsPlugin::default().build();
    w.step(DEFAULT_DELTA_TIME + 7);
    assert_eq!(w.substeps_last_frame, 20);
    assert_eq!(w.loop_state.accumulator, 7);
}

#[test]
fn the_controller_rests_between_frames() {
    let mut w = PhysicsPlugin::default().build();
    w.step(DEFAULT_DELTA_TIME);
    assert!(!w.loop_state.substepping);
    assert!(!w.loop_state.has_added_time);
    assert_eq!(w.loop_state.current_substep, 0);
}
