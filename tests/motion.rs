use platformer::motion::{
    combine, fall, jump, movement, rise, step, Displacement, InputSnapshot, JumpState,
    MotionConfig, PlayerState, SUBUNITS_PER_UNIT,
};

const TENTH: u32 = 100_000;

fn config() -> MotionConfig {
    MotionConfig::new(400, 850, 230)
}

fn keys(move_left: bool, move_right: bool, jump_pressed: bool) -> InputSnapshot {
    InputSnapshot { move_left, move_right, jump_pressed }
}

fn grounded_player() -> PlayerState {
    let mut p = PlayerState::new();
    p.record_contact(true);
    p
}

#[test]
fn full_jump_then_fall_scenario() {
    let c = config();
    let mut p = grounded_player();
    let up = keys(false, false, true);

    let d1 = step(&c, &mut p, &up, TENTH);
    assert_eq!(d1, Displacement { dx: 0, dy: 85_000_000 });
    assert_eq!(p.jump, Some(JumpState { accumulated_rise: 85_000_000 }));

    let d2 = step(&c, &mut p, &up, TENTH);
    assert_eq!(d2.dy, 85_000_000);
    assert_eq!(p.jump, Some(JumpState { accumulated_rise: 170_000_000 }));

    let d3 = step(&c, &mut p, &up, TENTH);
    assert_eq!(d3.dy, 60_000_000);
    assert_eq!(p.jump, None);
    assert_eq!(d1.dy + d2.dy + d3.dy, 230 * SUBUNITS_PER_UNIT as i128);

    p.record_contact(false);
    for _ in 0..5 {
        let d = step(&c, &mut p, &up, TENTH);
        assert_eq!(d.dy, -56_666_666);
        assert!(!p.is_rising());
    }

    p.record_contact(true);
    let d = step(&c, &mut p, &up, TENTH);
    assert_eq!(d.dy, 85_000_000);
    assert!(p.is_rising());
}

#[test]
fn jump_cap_holds_for_uneven_frames() {
    let c = config();
    let cap = c.max_rise();
    let frame_times: [u32; 9] = [16_667, 1, 33_333, 250_000, 7, 16_000, 17_000, 99_999, 3];
    for start in 0..frame_times.len() {
        let mut p = grounded_player();
        jump(&mut p, true);
        let mut total: i128 = 0;
        let mut i = start;
        while p.is_rising() {
            let dy = rise(&c, &mut p, frame_times[i % frame_times.len()]);
            assert!(dy >= 0);
            total += dy;
            if let Some(j) = p.jump {
                assert!(j.accumulated_rise <= cap);
                assert_eq!(j.accumulated_rise as i128, total);
            }
            i += 1;
        }
        assert_eq!(total, cap as i128);
    }
}

#[test]
fn jump_ends_exactly_on_cap() {
    let c = MotionConfig::new(1, 10, 2);
    let mut p = grounded_player();
    jump(&mut p, true);
    // 10 micro-units per microsecond, so 100_000 microseconds reach 1 unit.
    assert_eq!(rise(&c, &mut p, 100_000), 1_000_000);
    assert!(p.is_rising());
    assert_eq!(rise(&c, &mut p, 100_000), 1_000_000);
    assert!(!p.is_rising());
}

#[test]
fn no_double_jump() {
    let c = config();
    let mut p = grounded_player();
    let up = keys(false, false, true);
    step(&c, &mut p, &up, TENTH);
    assert_eq!(p.jump, Some(JumpState { accumulated_rise: 85_000_000 }));
    jump(&mut p, true);
    assert_eq!(p.jump, Some(JumpState { accumulated_rise: 85_000_000 }));
    step(&c, &mut p, &up, 10_000);
    assert_eq!(p.jump, Some(JumpState { accumulated_rise: 93_500_000 }));
}

#[test]
fn ground_gated_jump() {
    let c = config();
    let mut p = PlayerState::new();
    let up = keys(false, false, true);
    for _ in 0..3 {
        let d = step(&c, &mut p, &up, TENTH);
        assert_eq!(d.dy, -56_666_666);
        assert_eq!(p.jump, None);
    }
    jump(&mut p, true);
    assert_eq!(p.jump, None);
}

#[test]
fn jump_reads_contact_reported_before_the_frame() {
    let c = config();
    let up = keys(false, false, true);

    // Airborne before the frame, landing during it: no jump this frame.
    let mut p = PlayerState::new();
    let d = step(&c, &mut p, &up, TENTH);
    assert_eq!(d.dy, -56_666_666);
    p.record_contact(true);
    assert!(!p.is_rising());
    // The next frame sees the landing.
    let d = step(&c, &mut p, &up, TENTH);
    assert_eq!(d.dy, 85_000_000);

    // On the ground before the frame, airborne after it: the jump starts.
    let mut q = grounded_player();
    let d = step(&c, &mut q, &up, TENTH);
    q.record_contact(false);
    assert_eq!(d.dy, 85_000_000);
    assert!(q.is_rising());
}

#[test]
fn horizontal_tie_break_goes_right() {
    let c = config();
    assert_eq!(movement(&c, &keys(true, true, false), TENTH), 40_000_000);
    assert_eq!(movement(&c, &keys(true, true, true), 1), 400);
}

#[test]
fn horizontal_directions() {
    let c = config();
    assert_eq!(movement(&c, &keys(false, true, false), TENTH), 40_000_000);
    assert_eq!(movement(&c, &keys(true, false, false), TENTH), -40_000_000);
    assert_eq!(movement(&c, &keys(false, false, false), TENTH), 0);
    assert_eq!(movement(&c, &keys(false, false, true), TENTH), 0);
    assert_eq!(movement(&c, &keys(true, false, false), 0), 0);
}

#[test]
fn idle_fall_rate() {
    let c = config();
    assert_eq!(fall(&c, TENTH), -56_666_666);
    assert_eq!(fall(&c, 3), -1700);
    assert_eq!(fall(&c, 0), 0);
    let mut p = grounded_player();
    let d = step(&c, &mut p, &InputSnapshot::default(), TENTH);
    assert_eq!(d, Displacement { dx: 0, dy: -56_666_666 });
    assert!(p.grounded);
}

#[test]
fn both_axes_from_one_frame() {
    let c = config();
    let mut p = grounded_player();
    let d = step(&c, &mut p, &keys(true, false, true), 50_000);
    assert_eq!(d, Displacement { dx: -20_000_000, dy: 42_500_000 });
    assert_eq!(combine(3, -4), Displacement { dx: 3, dy: -4 });
}

#[test]
fn largest_values_do_not_overflow() {
    let c = MotionConfig::new(u32::MAX, u32::MAX, u32::MAX);
    let big = u32::MAX as i128 * u32::MAX as i128;
    assert_eq!(movement(&c, &keys(false, true, false), u32::MAX), big);
    assert_eq!(fall(&c, u32::MAX), -(2 * big / 3));
    assert_eq!(c.max_rise(), u32::MAX as u64 * 1_000_000);
    let mut p = grounded_player();
    let d = step(&c, &mut p, &keys(false, false, true), u32::MAX);
    assert_eq!(d.dy, c.max_rise() as i128);
    assert!(!p.is_rising());
}

#[test]
fn zero_frame_time_keeps_rise() {
    let c = config();
    let mut p = grounded_player();
    jump(&mut p, true);
    assert_eq!(rise(&c, &mut p, 0), 0);
    assert_eq!(p.jump, Some(JumpState { accumulated_rise: 0 }));
}

#[test]
fn new_state_and_config() {
    let p = PlayerState::new();
    assert_eq!(p.jump, None);
    assert!(!p.grounded);
    assert!(!p.is_rising());
    let c = config();
    assert_eq!((c.velocity_x, c.velocity_y, c.max_jump_height), (400, 850, 230));
    assert_eq!(c.max_rise(), 230_000_000);
}
