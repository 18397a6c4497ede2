use vstd::prelude::*;

use crate::motion::{
    fall_amount, rise_amount, rise_next, spec_jump, spec_movement, spec_step, travel,
    InputSnapshot, MotionConfig,
};

verus! {

/// A run of rising frames from a rise of `acc`, one frame per entry of `dts`:
/// the jump after the run (`None` once the cap was reached, after which the
/// remaining frames are no longer rising) and the upward displacement summed
/// over the rising frames.
pub open spec fn rise_run(c: MotionConfig, acc: nat, dts: Seq<u32>) -> (Option<nat>, nat)
    decreases dts.len(),
{
    if dts.len() == 0 {
        (Some(acc), 0)
    } else {
        let up = rise_amount(c, acc, dts[0]);
        match rise_next(c, acc, dts[0]) {
            None => (None, up),
            Some(next) => {
                let rest = rise_run(c, next, dts.drop_first());
                (rest.0, up + rest.1)
            },
        }
    }
}

/// Jump cap: along any run of rising frames the accumulated rise stays within
/// the maximum jump height and equals the displacement summed so far; a rise
/// that ends has climbed exactly the maximum height from where it started.
pub proof fn lemma_jump_cap(c: MotionConfig, acc: nat, dts: Seq<u32>)
    requires
        acc <= c.cap(),
    ensures
        match rise_run(c, acc, dts).0 {
            Some(a) => a <= c.cap() && a == acc + rise_run(c, acc, dts).1,
            None => acc + rise_run(c, acc, dts).1 == c.cap(),
        },
    decreases dts.len(),
{
    if dts.len() > 0 {
        if let Some(next) = rise_next(c, acc, dts[0]) {
            lemma_jump_cap(c, next, dts.drop_first());
        }
    }
}

/// A full jump, started from no rise, climbs exactly the maximum height.
pub proof fn lemma_full_jump_height(c: MotionConfig, dts: Seq<u32>)
    requires
        rise_run(c, 0, dts).0.is_none(),
    ensures
        rise_run(c, 0, dts).1 == c.cap(),
{
    lemma_jump_cap(c, 0, dts);
}

/// With a positive rising speed and positive frame times, a jump does end:
/// within one frame more than the micro-units left below the cap it has
/// reached the cap.
pub proof fn lemma_jump_ends(c: MotionConfig, acc: nat, dts: Seq<u32>)
    requires
        acc <= c.cap(),
        c.velocity_y > 0,
        forall|i: int| 0 <= i < dts.len() ==> dts[i] > 0,
        dts.len() > c.cap() - acc,
    ensures
        rise_run(c, acc, dts).0.is_none(),
    decreases dts.len(),
{
    if dts.len() > 0 {
        assert(travel(c.velocity_y, dts[0]) >= 1) by (nonlinear_arith)
            requires c.velocity_y > 0, dts[0] > 0;
        if let Some(next) = rise_next(c, acc, dts[0]) {
            let rest = dts.drop_first();
            assert forall|i: int| 0 <= i < rest.len() implies rest[i] > 0 by {
                assert(rest[i] == dts[i + 1]);
            }
            lemma_jump_cap(c, next, rest);
            lemma_jump_ends(c, next, rest);
        }
    }
}

/// No double jump: while rising, holding the jump key starts no new jump and
/// the frame continues the current rise exactly as without the key.
pub proof fn lemma_no_double_jump(
    c: MotionConfig,
    acc: nat,
    grounded: bool,
    input: InputSnapshot,
    dt: u32,
)
    requires
        input.jump_pressed,
    ensures
        spec_jump(Some(acc), input.jump_pressed, grounded) == Some(acc),
        spec_step(c, Some(acc), grounded, input, dt).0 == rise_next(c, acc, dt),
        spec_step(c, Some(acc), grounded, input, dt).2 == rise_amount(c, acc, dt) as int,
{
}

/// Ground-gated jump: without reported ground contact the jump key never
/// starts a jump; the frame falls.
pub proof fn lemma_ground_gated_jump(c: MotionConfig, input: InputSnapshot, dt: u32)
    ensures
        spec_jump(None, input.jump_pressed, false).is_none(),
        spec_step(c, None, false, input, dt).0.is_none(),
        spec_step(c, None, false, input, dt).2 == fall_amount(c, dt),
{
}

/// One-frame feedback lag: with the jump key held and no jump in progress, a
/// frame starts a jump exactly when the contact reported before it (from the
/// previous frame's displacement) was ground; whatever the resolver reports
/// after this frame plays no part.
pub proof fn lemma_feedback_lag(
    c: MotionConfig,
    reported_before: bool,
    input: InputSnapshot,
    dt: u32,
)
    requires
        input.jump_pressed,
    ensures
        spec_jump(None, input.jump_pressed, reported_before).is_some() == reported_before,
        spec_step(c, None, reported_before, input, dt).2 == if reported_before {
            rise_amount(c, 0, dt) as int
        } else {
            fall_amount(c, dt)
        },
{
}

/// Horizontal tie-break: with both directions held the avatar moves right at
/// full speed.
pub proof fn lemma_horizontal_tie_break(c: MotionConfig, input: InputSnapshot, dt: u32)
    requires
        input.move_left,
        input.move_right,
    ensures
        spec_movement(c, input, dt) == travel(c.velocity_x, dt) as int,
{
}

/// Idle fall: with no jump in progress, a frame that starts none (the jump key
/// is released or no ground contact was reported) descends by two thirds of
/// the rising speed times the frame time, and stays without a jump.
pub proof fn lemma_idle_fall(
    c: MotionConfig,
    grounded: bool,
    input: InputSnapshot,
    dt: u32,
)
    requires
        !(input.jump_pressed && grounded),
    ensures
        spec_step(c, None, grounded, input, dt).0.is_none(),
        spec_step(c, None, grounded, input, dt).2 == fall_amount(c, dt),
        fall_amount(c, dt) == -((2 * c.velocity_y as int * dt as int) / 3),
{
    assert(2 * travel(c.velocity_y, dt) == 2 * c.velocity_y as int * dt as int) by (nonlinear_arith);
}

} // verus!
