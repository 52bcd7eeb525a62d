//! Movement intent, velocity integration and ground contact.
//!
//! Quantities are fixed-point integers (see the crate root): intent in
//! per-mille of a unit vector, speed caps in milli-units/s, velocities in
//! micro-units/s and positions in nano-units, with tick durations in whole
//! milliseconds. A velocity is then exactly an intent times a speed cap, and
//! a position delta exactly a velocity times a millisecond count, so the
//! integrator needs no division. Where an accumulated value would leave the
//! 64-bit range it saturates at the range's ends.

use vstd::prelude::*;

verus! {

/// A two-component fixed-point vector.
#[derive(Clone, Copy, Debug, PartialEq, Eq, Structural)]
pub struct Vec2i {
    pub x: i64,
    pub y: i64,
}

/// The longest legal tick: one hour of simulated time in milliseconds.
pub const MAX_TICK_MS: u64 = 3_600_000;

/// Intent magnitude of a fully held direction (1.0 in per-mille).
pub const INTENT_UNIT: i64 = 1000;

/// Walking speed cap in milli-units/s (100 world units per second).
pub const WALK_SPEED: i64 = 100_000;

/// Running speed cap in milli-units/s (300 world units per second).
pub const RUN_SPEED: i64 = 300_000;

/// Speed cap of a freshly spawned entity in milli-units/s (400 units/s).
pub const DEFAULT_MAX_SPEED: i64 = 400_000;

/// Largest speed cap the integrator accepts, in milli-units/s.
pub const MAX_SPEED_CAP: i64 = 1_000_000_000;

/// Gravity as a velocity change in micro-units/s per elapsed millisecond
/// (a constant acceleration of -1200 world units per second squared).
pub const GRAVITY_DV_PER_MS: i64 = -1_200_000;

/// Vertical velocity applied when a jump initiates, in micro-units/s
/// (520 world units per second, upwards).
pub const JUMP_IMPULSE: i64 = 520_000_000;

/// Horizontal intent above which a run request counts as running, in
/// per-mille (0.5).
pub const RUN_INTENT_THRESHOLD: i64 = 500;

/// Per-entity movement state: desired direction, speed cap, velocity and the
/// contact and request flags the animation state machine reads.
#[derive(Clone, Copy, Debug, PartialEq, Eq, Structural)]
pub struct MovementController {
    /// The direction the character wants to move in, per-mille of a unit
    /// vector (each component within ±1000).
    pub intent: Vec2i,
    /// Maximum speed in milli-units/s.
    pub max_speed: i64,
    /// Current velocity in micro-units/s.
    pub velocity: Vec2i,
    /// Whether the character is on the ground.
    pub on_ground: bool,
    /// Whether the character is sliding.
    pub is_sliding: bool,
    /// Whether the character is wall sliding.
    pub is_wall_sliding: bool,
    /// Player requested a jump; consumed and cleared every tick.
    pub want_jump: bool,
    /// Player requested to run.
    pub want_run: bool,
    /// Whether the character is effectively running; recomputed every tick
    /// from the run request and the horizontal intent.
    pub is_running: bool,
}

impl MovementController {
    /// Well-formedness: the intent is a (scaled) unit vector at most, and
    /// the speed cap is non-negative and within the supported range.
    pub open spec fn wf(self) -> bool {
        &&& -INTENT_UNIT <= self.intent.x <= INTENT_UNIT
        &&& -INTENT_UNIT <= self.intent.y <= INTENT_UNIT
        &&& 0 <= self.max_speed <= MAX_SPEED_CAP
    }
}

impl Default for MovementController {
    /// A freshly spawned entity: no intent, airborne, default speed cap.
    fn default() -> (c: MovementController)
        ensures
            c == (MovementController {
                intent: Vec2i { x: 0, y: 0 },
                max_speed: DEFAULT_MAX_SPEED,
                velocity: Vec2i { x: 0, y: 0 },
                on_ground: false,
                is_sliding: false,
                is_wall_sliding: false,
                want_jump: false,
                want_run: false,
                is_running: false,
            }),
            c.wf(),
    {
        MovementController {
            intent: Vec2i { x: 0, y: 0 },
            max_speed: DEFAULT_MAX_SPEED,
            velocity: Vec2i { x: 0, y: 0 },
            on_ground: false,
            is_sliding: false,
            is_wall_sliding: false,
            want_jump: false,
            want_run: false,
            is_running: false,
        }
    }
}

/// Marker for entities whose position wraps around the screen.
#[derive(Clone, Copy, Debug, PartialEq, Eq, Structural)]
pub struct ScreenWrap;

/// One snapshot of the pressed state of the keys the resolver reads, with
/// the key sets already collapsed to the four actions they request.
#[derive(Clone, Copy, Debug, PartialEq, Eq, Structural)]
pub struct InputSnapshot {
    pub left: bool,
    pub right: bool,
    pub jump: bool,
    pub run: bool,
}

/// The normalized horizontal intent read from a snapshot: the two direction
/// keys pull in opposite directions and cancel when both are held.
pub open spec fn spec_intent_x(cur: InputSnapshot) -> i64 {
    if cur.right && !cur.left {
        INTENT_UNIT
    } else if cur.left && !cur.right {
        (-INTENT_UNIT) as i64
    } else {
        0
    }
}

/// A jump is requested only on the tick the key goes from unpressed to
/// pressed.
pub open spec fn spec_jump_edge(prev: InputSnapshot, cur: InputSnapshot) -> bool {
    cur.jump && !prev.jump
}

/// The controller after the input resolver ran on snapshot `cur`, with
/// `prev` the previous tick's snapshot for edge detection.
pub open spec fn spec_resolved(
    c: MovementController,
    prev: InputSnapshot,
    cur: InputSnapshot,
) -> MovementController {
    let ix = spec_intent_x(cur);
    let run_now = cur.run && ix != 0;
    MovementController {
        intent: Vec2i { x: ix, y: 0 },
        max_speed: if run_now {
            RUN_SPEED
        } else {
            WALK_SPEED
        },
        velocity: c.velocity,
        on_ground: c.on_ground,
        is_sliding: c.is_sliding,
        is_wall_sliding: c.is_wall_sliding,
        want_jump: c.want_jump || spec_jump_edge(prev, cur),
        want_run: run_now,
        is_running: c.is_running,
    }
}

/// Read one input snapshot into the controller: write the normalized intent,
/// latch a jump request on the key's press edge, and pick the walking or the
/// running speed cap. Never reads the velocity or the animation state.
pub fn record_player_directional_input(
    prev: &InputSnapshot,
    cur: &InputSnapshot,
    c: &mut MovementController,
)
    ensures
        *final(c) == spec_resolved(*old(c), *prev, *cur),
        final(c).wf(),
{
    let mut ix: i64 = 0;
    if cur.left {
        ix = ix - INTENT_UNIT;
    }
    if cur.right {
        ix = ix + INTENT_UNIT;
    }
    c.intent = Vec2i { x: ix, y: 0 };

    let jump_pressed = cur.jump && !prev.jump;
    if jump_pressed {
        c.want_jump = true;
    }

    if cur.run && ix != 0 {
        c.max_speed = RUN_SPEED;
        c.want_run = true;
    } else {
        c.max_speed = WALK_SPEED;
        c.want_run = false;
    }
}

/// A 64-bit value saturated at the ends of the `i64` range.
pub open spec fn sat64(x: int) -> int {
    if x > i64::MAX {
        i64::MAX as int
    } else if x < i64::MIN {
        i64::MIN as int
    } else {
        x
    }
}

/// Division by two rounded towards zero, as machine division does it.
pub open spec fn half_towards_zero(x: int) -> int {
    if x >= 0 {
        x / 2
    } else {
        -((-x) / 2)
    }
}

/// The run multiplier: one and a half times the velocity, the half rounded
/// towards zero.
pub open spec fn spec_run_boost(v: int) -> int {
    half_towards_zero(3 * v)
}

/// Whether the controller counts as running this tick: a run request
/// together with a horizontal intent beyond the threshold.
pub open spec fn spec_running(c: MovementController) -> bool {
    c.want_run && (c.intent.x > RUN_INTENT_THRESHOLD || c.intent.x < -RUN_INTENT_THRESHOLD)
}

/// The horizontal velocity the integrator assigns before the run boost:
/// intent (per-mille) times speed cap (milli-units/s) is exactly a velocity
/// in micro-units/s.
pub open spec fn spec_vx_base(c: MovementController) -> int {
    c.intent.x * c.max_speed
}

/// The horizontal velocity after the optional run boost.
pub open spec fn spec_vx_after(c: MovementController) -> int {
    if spec_running(c) {
        spec_run_boost(spec_vx_base(c))
    } else {
        spec_vx_base(c)
    }
}

/// The vertical velocity after gravity acted for `dt_ms` milliseconds.
pub open spec fn spec_vy_gravity(c: MovementController, dt_ms: u64) -> int {
    sat64(c.velocity.y + GRAVITY_DV_PER_MS * dt_ms)
}

/// Whether a jump initiates this tick: requested while on the ground.
pub open spec fn spec_jumps(c: MovementController) -> bool {
    c.want_jump && c.on_ground
}

/// The vertical velocity before integration: the jump impulse when a jump
/// initiates, otherwise the gravity-updated velocity.
pub open spec fn spec_vy_after(c: MovementController, dt_ms: u64) -> int {
    if spec_jumps(c) {
        JUMP_IMPULSE as int
    } else {
        spec_vy_gravity(c, dt_ms)
    }
}

/// The horizontal position after integration: velocity (micro-units/s)
/// times milliseconds is exactly a delta in nano-units.
pub open spec fn spec_pos_x_after(c: MovementController, pos: Vec2i, dt_ms: u64) -> int {
    sat64(pos.x + spec_vx_after(c) * dt_ms)
}

/// The vertical position after integration, before the ground clamp.
pub open spec fn spec_pos_y_raw(c: MovementController, pos: Vec2i, dt_ms: u64) -> int {
    sat64(pos.y + spec_vy_after(c, dt_ms) * dt_ms)
}

/// Whether the tick ends in ground contact: the integrated vertical
/// position is at or below the ground plane.
pub open spec fn spec_grounded(c: MovementController, pos: Vec2i, dt_ms: u64) -> bool {
    spec_pos_y_raw(c, pos, dt_ms) <= 0
}

/// The controller after one integrator tick.
pub open spec fn spec_moved_controller(
    c: MovementController,
    pos: Vec2i,
    dt_ms: u64,
) -> MovementController {
    let grounded = spec_grounded(c, pos, dt_ms);
    MovementController {
        intent: c.intent,
        max_speed: c.max_speed,
        velocity: Vec2i {
            x: spec_vx_after(c) as i64,
            y: if grounded {
                0
            } else {
                spec_vy_after(c, dt_ms) as i64
            },
        },
        on_ground: grounded,
        is_sliding: c.is_sliding,
        is_wall_sliding: c.is_wall_sliding,
        want_jump: false,
        want_run: c.want_run,
        is_running: spec_running(c),
    }
}

/// The position after one integrator tick.
pub open spec fn spec_moved_position(c: MovementController, pos: Vec2i, dt_ms: u64) -> Vec2i {
    let grounded = spec_grounded(c, pos, dt_ms);
    Vec2i {
        x: spec_pos_x_after(c, pos, dt_ms) as i64,
        y: if grounded {
            0
        } else {
            spec_pos_y_raw(c, pos, dt_ms) as i64
        },
    }
}

/// Saturating `a + b` on `i64`.
fn sat_add_i64(a: i64, b: i64) -> (r: i64)
    ensures
        r as int == sat64(a + b),
{
    let s: i128 = a as i128 + b as i128;
    if s > i64::MAX as i128 {
        i64::MAX
    } else if s < i64::MIN as i128 {
        i64::MIN
    } else {
        s as i64
    }
}

/// Saturating `pos + v * dt_ms` on `i64`; the product cannot leave the
/// 128-bit range for any 64-bit velocity and a bounded tick.
fn sat_mul_add_i64(pos: i64, v: i64, dt_ms: u64) -> (r: i64)
    requires
        dt_ms <= MAX_TICK_MS,
    ensures
        r as int == sat64(pos + v * dt_ms),
{
    assert(-0x8000_0000_0000_0000_0000_0000i128 <= v as i128 * dt_ms as i128
        <= 0x8000_0000_0000_0000_0000_0000i128) by (nonlinear_arith)
        requires
            -0x8000_0000_0000_0000i128 <= v as i128 <= 0x7fff_ffff_ffff_ffffi128,
            0 <= dt_ms as i128 <= 0x36_ee80i128,
    ;
    let prod: i128 = v as i128 * dt_ms as i128;
    let s: i128 = pos as i128 + prod;
    if s > i64::MAX as i128 {
        i64::MAX
    } else if s < i64::MIN as i128 {
        i64::MIN
    } else {
        s as i64
    }
}

/// `v` boosted by the run multiplier of one and a half, rounded towards
/// zero, for velocities small enough that tripling stays in range.
fn run_boost(v: i64) -> (r: i64)
    requires
        -0x1000_0000_0000_0000 <= 3 * v <= 0x1000_0000_0000_0000,
    ensures
        r as int == spec_run_boost(v as int),
{
    let t: i64 = 3 * v;
    let half = t.checked_div(2);
    match half {
        Some(r) => r,
        None => {
            proof {
                assert(false);
            }
            0
        },
    }
}

/// One integrator tick: assign the horizontal velocity from the intent and
/// the speed cap, apply gravity, recompute the running flag and boost the
/// horizontal velocity when running, initiate a jump when one was requested
/// on the ground (the request is consumed either way), integrate the
/// position, and clamp to the flat ground plane at height zero.
pub fn apply_movement(c: &mut MovementController, pos: &mut Vec2i, dt_ms: u64)
    requires
        old(c).wf(),
        dt_ms <= MAX_TICK_MS,
    ensures
        *final(c) == spec_moved_controller(*old(c), *old(pos), dt_ms),
        *final(pos) == spec_moved_position(*old(c), *old(pos), dt_ms),
        final(c).wf(),
        !final(c).want_jump,
{
    // Horizontal velocity from intent; exact because per-mille times
    // milli-units/s is micro-units/s.
    assert(-1_000_000_000_000 <= c.intent.x * c.max_speed <= 1_000_000_000_000)
        by (nonlinear_arith)
        requires
            -1000 <= c.intent.x <= 1000,
            0 <= c.max_speed <= 1_000_000_000,
    ;
    let vx_base: i64 = c.intent.x * c.max_speed;

    // Gravity.
    let dv: i64 = GRAVITY_DV_PER_MS * (dt_ms as i64);
    c.velocity = Vec2i { x: vx_base, y: sat_add_i64(c.velocity.y, dv) };

    // Effective running and the run boost.
    let running = c.want_run && (c.intent.x > RUN_INTENT_THRESHOLD || c.intent.x
        < -RUN_INTENT_THRESHOLD);
    c.is_running = running;
    if running {
        c.velocity = Vec2i { x: run_boost(vx_base), y: c.velocity.y };
    }

    // Jump: initiate only on the ground; the request is consumed either way.
    if c.want_jump && c.on_ground {
        c.velocity = Vec2i { x: c.velocity.x, y: JUMP_IMPULSE };
        c.on_ground = false;
    }
    c.want_jump = false;

    // Integrate the position.
    let px = sat_mul_add_i64(pos.x, c.velocity.x, dt_ms);
    let py = sat_mul_add_i64(pos.y, c.velocity.y, dt_ms);
    *pos = Vec2i { x: px, y: py };

    // Ground clamp against the flat plane at height zero.
    if pos.y <= 0 {
        *pos = Vec2i { x: pos.x, y: 0 };
        c.on_ground = true;
        c.velocity = Vec2i { x: c.velocity.x, y: 0 };
    } else {
        c.on_ground = false;
    }
}

/// `pos` wrapped into a band of width `size` centred on zero: the euclidean
/// remainder of `pos + size / 2`, shifted back by half the band.
pub fn wrap_coordinate(pos: i64, size: i64) -> (r: i64)
    requires
        size > 0,
    ensures
        r == (pos + size / 2) % (size as int) - size / 2,
{
    let half: i64 = ((size as u64) / 2) as i64;
    assert(half == size / 2);
    let t: i128 = pos as i128 + half as i128;
    let m: i128 = match t.checked_rem_euclid(size as i128) {
        Some(m) => m,
        None => {
            proof {
                assert(false);
            }
            0
        },
    };
    assert(0 <= m < size);
    (m - half as i128) as i64
}

} // verus!
