use vstd::prelude::*;

verus! {

/// Micro-units in one world unit.
pub const SUBUNITS_PER_UNIT: u64 = 1_000_000;

/// Tunable constants of the motion rules, fixed for a session.
#[derive(Clone, Copy, Debug, PartialEq, Eq)]
pub struct MotionConfig {
    /// Horizontal speed, units per second.
    pub velocity_x: u32,
    /// Rising speed, units per second; falling goes at two thirds of it.
    pub velocity_y: u32,
    /// Height of a full jump, units.
    pub max_jump_height: u32,
}

impl MotionConfig {
    /// The height of a full jump in micro-units.
    pub open spec fn cap(self) -> nat {
        self.max_jump_height as nat * SUBUNITS_PER_UNIT as nat
    }

    pub fn new(velocity_x: u32, velocity_y: u32, max_jump_height: u32) -> (r: MotionConfig)
        ensures
            r.velocity_x == velocity_x,
            r.velocity_y == velocity_y,
            r.max_jump_height == max_jump_height,
    {
        MotionConfig { velocity_x, velocity_y, max_jump_height }
    }

    /// The height of a full jump in micro-units.
    pub fn max_rise(&self) -> (r: u64)
        ensures
            r == self.cap(),
    {
        proof {
            assert(self.max_jump_height as nat * SUBUNITS_PER_UNIT as nat <= u32::MAX as nat * 1_000_000)
                by (nonlinear_arith)
                requires self.max_jump_height <= u32::MAX;
        }
        self.max_jump_height as u64 * SUBUNITS_PER_UNIT
    }
}

/// What the player asks for in one frame.
#[derive(Clone, Copy, Debug, Default, PartialEq, Eq)]
pub struct InputSnapshot {
    pub move_left: bool,
    pub move_right: bool,
    pub jump_pressed: bool,
}

/// Distance covered at `speed` units per second during `dt` microseconds.
pub open spec fn travel(speed: u32, dt: u32) -> nat {
    speed as nat * dt as nat
}

/// Horizontal displacement for one frame: full speed or standstill, and
/// right wins when both directions are held.
pub open spec fn spec_movement(c: MotionConfig, input: InputSnapshot, dt: u32) -> int {
    if input.move_right {
        travel(c.velocity_x, dt) as int
    } else if input.move_left {
        -(travel(c.velocity_x, dt) as int)
    } else {
        0
    }
}

fn product(speed: u32, dt: u32) -> (r: u64)
    ensures
        r == travel(speed, dt),
{
    proof {
        assert(speed as nat * dt as nat <= u32::MAX as nat * u32::MAX as nat) by (nonlinear_arith)
            requires speed <= u32::MAX, dt <= u32::MAX;
    }
    speed as u64 * dt as u64
}

/// Horizontal displacement of one frame (left is negative).
pub fn movement(config: &MotionConfig, input: &InputSnapshot, dt: u32) -> (dx: i128)
    ensures
        dx == spec_movement(*config, *input, dt),
{
    let mut dx: i128 = 0;
    if input.move_left {
        dx = -(product(config.velocity_x, dt) as i128);
    }
    if input.move_right {
        dx = product(config.velocity_x, dt) as i128;
    }
    dx
}

/// The displacement requested from the collision resolver for one frame,
/// in micro-units; up and right are positive.
#[derive(Clone, Copy, Debug, PartialEq, Eq)]
pub struct Displacement {
    pub dx: i128,
    pub dy: i128,
}

/// Packs the two components computed for the same frame into one request.
pub fn combine(dx: i128, dy: i128) -> (d: Displacement)
    ensures
        d.dx == dx,
        d.dy == dy,
{
    Displacement { dx, dy }
}

/// Present while the avatar is ascending: how far it has risen so far in
/// the current jump, in micro-units.
#[derive(Clone, Copy, Debug, PartialEq, Eq)]
pub struct JumpState {
    pub accumulated_rise: u64,
}

/// The motion state kept across frames.
#[derive(Clone, Copy, Debug, PartialEq, Eq)]
pub struct PlayerState {
    /// `Some` while rising, `None` while grounded or falling.
    pub jump: Option<JumpState>,
    /// The ground contact last reported by the resolver, that is the one
    /// that resulted from the previous frame's displacement.
    pub grounded: bool,
}

/// The rise of a jump in progress, if any.
pub open spec fn rise_of(jump: Option<JumpState>) -> Option<nat> {
    match jump {
        Some(j) => Some(j.accumulated_rise as nat),
        None => None,
    }
}

/// A jump in progress never stands above the cap.
pub open spec fn jump_within(c: MotionConfig, jump: Option<JumpState>) -> bool {
    match jump {
        Some(j) => j.accumulated_rise <= c.cap(),
        None => true,
    }
}

impl PlayerState {
    pub open spec fn wf(self, c: MotionConfig) -> bool {
        jump_within(c, self.jump)
    }

    /// The state at scene start: not rising, no contact reported yet.
    pub fn new() -> (r: PlayerState)
        ensures
            r.jump.is_none(),
            !r.grounded,
    {
        PlayerState { jump: None, grounded: false }
    }

    /// True while a jump is in progress.
    pub fn is_rising(&self) -> (r: bool)
        ensures
            r == self.jump.is_some(),
    {
        self.jump.is_some()
    }

    /// Stores the ground contact that the resolver reported after applying
    /// this frame's displacement; the next frame decides on it.
    pub fn record_contact(&mut self, grounded: bool)
        ensures
            final(self).grounded == grounded,
            final(self).jump == old(self).jump,
    {
        self.grounded = grounded;
    }
}

/// The jump decision: a jump starts only from the non-rising state, with the
/// jump key held and ground contact reported.
pub open spec fn spec_jump(jump: Option<nat>, jump_pressed: bool, grounded: bool) -> Option<nat> {
    if jump.is_none() && jump_pressed && grounded {
        Some(0)
    } else {
        jump
    }
}

/// Upward displacement of a rising frame: the full travel, or what is left
/// up to the cap when the travel would reach it.
pub open spec fn rise_amount(c: MotionConfig, acc: nat, dt: u32) -> nat {
    if acc + travel(c.velocity_y, dt) >= c.cap() {
        (c.cap() - acc) as nat
    } else {
        travel(c.velocity_y, dt)
    }
}

/// The jump after a rising frame: gone once the cap is reached.
pub open spec fn rise_next(c: MotionConfig, acc: nat, dt: u32) -> Option<nat> {
    if acc + travel(c.velocity_y, dt) >= c.cap() {
        None
    } else {
        Some(acc + travel(c.velocity_y, dt))
    }
}

/// Downward displacement of a frame without a jump: two thirds of the rising
/// speed, rounded toward zero to whole micro-units.
pub open spec fn fall_amount(c: MotionConfig, dt: u32) -> int {
    -((2 * travel(c.velocity_y, dt)) / 3) as int
}

/// Starts a jump when the jump key is held, ground contact was reported and
/// no jump is in progress; otherwise leaves the state as it is.
pub fn jump(player: &mut PlayerState, jump_pressed: bool)
    ensures
        rise_of(final(player).jump) == spec_jump(rise_of(old(player).jump), jump_pressed, old(player).grounded),
        final(player).grounded == old(player).grounded,
        old(player).jump.is_some() ==> final(player).jump == old(player).jump,
{
    if player.jump.is_none() && jump_pressed && player.grounded {
        player.jump = Some(JumpState { accumulated_rise: 0 });
    }
}

/// One rising frame: returns the upward displacement and advances the jump,
/// ending it once it reaches the cap.
pub fn rise(config: &MotionConfig, player: &mut PlayerState, dt: u32) -> (dy: i128)
    requires
        old(player).wf(*config),
        old(player).jump.is_some(),
    ensures
        final(player).wf(*config),
        final(player).grounded == old(player).grounded,
        dy == rise_amount(*config, old(player).jump.unwrap().accumulated_rise as nat, dt),
        rise_of(final(player).jump) == rise_next(*config, old(player).jump.unwrap().accumulated_rise as nat, dt),
{
    let acc = match player.jump {
        Some(j) => j.accumulated_rise,
        None => 0,
    };
    let cap = config.max_rise();
    let raw = product(config.velocity_y, dt);
    if raw >= cap - acc {
        player.jump = None;
        (cap - acc) as i128
    } else {
        player.jump = Some(JumpState { accumulated_rise: acc + raw });
        raw as i128
    }
}

/// One frame without a jump: constant-rate descent, also while resting on
/// the ground, where the resolver keeps the avatar out of the floor.
pub fn fall(config: &MotionConfig, dt: u32) -> (dy: i128)
    ensures
        dy == fall_amount(*config, dt),
{
    let raw = product(config.velocity_y, dt) as u128;
    -(((2 * raw) / 3) as i128)
}

/// Vertical displacement of a frame and the jump after it, once the jump
/// decision of the frame has been made.
pub open spec fn spec_vertical(c: MotionConfig, jump: Option<nat>, dt: u32) -> (Option<nat>, int) {
    match jump {
        Some(acc) => (rise_next(c, acc, dt), rise_amount(c, acc, dt) as int),
        None => (None, fall_amount(c, dt)),
    }
}

/// One whole frame: the jump after it and the displacement it requests.
/// The jump decision reads `grounded`, the contact reported before the frame.
pub open spec fn spec_step(
    c: MotionConfig,
    jump: Option<nat>,
    grounded: bool,
    input: InputSnapshot,
    dt: u32,
) -> (Option<nat>, int, int) {
    let v = spec_vertical(c, spec_jump(jump, input.jump_pressed, grounded), dt);
    (v.0, spec_movement(c, input, dt), v.1)
}

/// Runs one frame: horizontal rule, jump decision on the contact reported
/// for the previous frame, rise or fall, and the combined request.
pub fn step(config: &MotionConfig, player: &mut PlayerState, input: &InputSnapshot, dt: u32) -> (d: Displacement)
    requires
        old(player).wf(*config),
    ensures
        final(player).wf(*config),
        final(player).grounded == old(player).grounded,
        (rise_of(final(player).jump), d.dx as int, d.dy as int) == spec_step(
            *config,
            rise_of(old(player).jump),
            old(player).grounded,
            *input,
            dt,
        ),
{
    let dx = movement(config, input, dt);
    jump(player, input.jump_pressed);
    let dy = if player.is_rising() {
        rise(config, player, dt)
    } else {
        fall(config, dt)
    };
    combine(dx, dy)
}

} // verus!
