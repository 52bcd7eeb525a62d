//! Laws of the simulation, proved once and for all inputs: how the frame
//! clock advances, that a state cut lands on frame zero, that a jump request
//! lives for at most one tick, what the effective running speed is, and that
//! resting on the ground is a fixed point of the integrator.

use vstd::prelude::*;

use vstd::arithmetic::div_mod::lemma_add_mod_noop_right;
use vstd::arithmetic::div_mod::lemma_basic_div;
use vstd::arithmetic::div_mod::lemma_div_multiples_vanish;
use vstd::arithmetic::div_mod::lemma_fundamental_div_mod;
use vstd::arithmetic::div_mod::lemma_fundamental_div_mod_converse_div;
use vstd::arithmetic::div_mod::lemma_fundamental_div_mod_converse_mod;
use vstd::arithmetic::div_mod::lemma_mod_multiples_basic;
use vstd::arithmetic::div_mod::lemma_small_mod;

use crate::animation::{spec_frame_count, spec_interval_ms, spec_selected_state, PlayerAnimation};
use crate::movement::{
    spec_intent_x, spec_jump_edge, spec_moved_controller, spec_moved_position, spec_resolved,
    InputSnapshot, MovementController, Vec2i, MAX_TICK_MS, RUN_SPEED,
};
use crate::pipeline::{spec_tick_animation, spec_tick_controller};

verus! {

/// Clock determinism, whole intervals: on a clock whose accumulator is
/// empty, a tick of exactly `k` intervals fires `k` times, advances the
/// frame by `k` modulo the frame count, and leaves the accumulator empty
/// again — so the law applies to every following tick as well.
pub proof fn lemma_clock_whole_intervals(anim: PlayerAnimation, k: u64)
    requires
        anim.wf(),
        anim.elapsed_ms == 0,
        k >= 1,
        k * spec_interval_ms(anim.state) <= MAX_TICK_MS,
    ensures
        anim.spec_ticked((k * spec_interval_ms(anim.state)) as u64) == (PlayerAnimation {
            elapsed_ms: 0,
            fired: true,
            frame: ((anim.frame + k) % spec_frame_count(anim.state) as int) as usize,
            state: anim.state,
        }),
{
    let i = spec_interval_ms(anim.state) as int;
    let total = k * i;
    assert(total == i * k && total >= 0) by (nonlinear_arith)
        requires
            k >= 1,
            i >= 1,
            total == k * i,
    ;
    lemma_div_multiples_vanish(k as int, i);
    lemma_mod_multiples_basic(k as int, i);
    assert(total / i == k);
    assert(total % i == 0);
}

/// Clock determinism, short tick: on a clock whose accumulator is empty, a
/// tick shorter than the interval never fires and leaves the frame index
/// unchanged.
pub proof fn lemma_clock_short_tick(anim: PlayerAnimation, dt_ms: u64)
    requires
        anim.wf(),
        anim.elapsed_ms == 0,
        dt_ms < spec_interval_ms(anim.state),
    ensures
        anim.spec_ticked(dt_ms) == (PlayerAnimation {
            elapsed_ms: dt_ms,
            fired: false,
            frame: anim.frame,
            state: anim.state,
        }),
{
    let i = spec_interval_ms(anim.state) as int;
    lemma_basic_div(dt_ms as int, i);
    lemma_small_mod(dt_ms as nat, i as nat);
    lemma_small_mod(anim.frame as nat, spec_frame_count(anim.state));
}

/// Clock determinism, granularity: within an unchanged state the clock is a
/// function of the total elapsed time alone — splitting one tick into two
/// lands on the same frame and the same accumulator as the whole tick.
/// (Only the fire flag tells the two apart: it reports the latest tick
/// only.) Applied inductively, any sequence of ticks summing to the same
/// total shows the same frame.
pub proof fn lemma_clock_granularity_invariant(anim: PlayerAnimation, d1: u64, d2: u64)
    requires
        anim.wf(),
        d1 + d2 <= MAX_TICK_MS,
    ensures
        ({
            let whole = anim.spec_ticked((d1 + d2) as u64);
            let split = anim.spec_ticked(d1).spec_ticked(d2);
            whole.frame == split.frame && whole.elapsed_ms == split.elapsed_ms && whole.state
                == split.state
        }),
{
    let i = spec_interval_ms(anim.state) as int;
    let f = spec_frame_count(anim.state) as int;
    let e = anim.elapsed_ms as int;
    assert(f >= 1);

    let t1 = e + d1;
    let q1 = t1 / i;
    let r1 = t1 % i;
    lemma_fundamental_div_mod(t1, i);

    let t2 = r1 + d2;
    let q2 = t2 / i;
    let r2 = t2 % i;
    lemma_fundamental_div_mod(t2, i);

    let total = e + d1 + d2;
    assert(total == (q1 + q2) * i + r2) by (nonlinear_arith)
        requires
            t1 == i * q1 + r1,
            t2 == i * q2 + r2,
            t2 == r1 + d2,
            total == t1 + d2,
    ;
    lemma_fundamental_div_mod_converse_div(total, i, q1 + q2, r2);
    lemma_fundamental_div_mod_converse_mod(total, i, q1 + q2, r2);

    lemma_add_mod_noop_right(q2, anim.frame + q1, f);
}

/// State-cut invariant: whenever the state selected after a tick differs
/// from the clock's previous state, the clock is freshly re-armed — the
/// frame index and the accumulator are zero, whatever they were before.
pub proof fn lemma_state_cut_resets_clock(
    anim: PlayerAnimation,
    moved: MovementController,
    dt_ms: u64,
)
    requires
        spec_selected_state(moved) != anim.state,
    ensures
        spec_tick_animation(anim, moved, dt_ms) == PlayerAnimation::spec_fresh(
            spec_selected_state(moved),
        ),
        spec_tick_animation(anim, moved, dt_ms).frame == 0,
        spec_tick_animation(anim, moved, dt_ms).elapsed_ms == 0,
{
}

/// Jump edge semantics: the integrator consumes the jump request on every
/// tick, initiated or not; and as long as the key only stays held, the next
/// tick's resolver raises a request only on a fresh press edge. A single
/// physical press therefore feeds the integrator a request on at most one
/// tick.
pub proof fn lemma_jump_edge_consumed(
    c: MovementController,
    pos: Vec2i,
    prev: InputSnapshot,
    cur: InputSnapshot,
    next: InputSnapshot,
    dt_ms: u64,
)
    ensures
        !spec_tick_controller(c, pos, prev, cur, dt_ms).want_jump,
        spec_resolved(spec_tick_controller(c, pos, prev, cur, dt_ms), cur, next).want_jump
            == spec_jump_edge(cur, next),
        cur.jump && next.jump ==> !spec_resolved(
            spec_tick_controller(c, pos, prev, cur, dt_ms),
            cur,
            next,
        ).want_jump,
{
}

/// Run composition: with the run key held and exactly one direction held,
/// the resolver picks the running speed cap, the integrator counts the
/// entity as running, and the effective horizontal velocity is the intent
/// times the running speed cap times the run multiplier of one and a half —
/// not the walking cap.
pub proof fn lemma_run_composition(
    c: MovementController,
    pos: Vec2i,
    prev: InputSnapshot,
    cur: InputSnapshot,
    dt_ms: u64,
)
    requires
        cur.run,
        cur.left != cur.right,
    ensures
        spec_resolved(c, prev, cur).max_speed == RUN_SPEED,
        spec_tick_controller(c, pos, prev, cur, dt_ms).is_running,
        spec_tick_controller(c, pos, prev, cur, dt_ms).velocity.x == spec_intent_x(cur)
            * RUN_SPEED * 3 / 2,
        cur.right ==> spec_tick_controller(c, pos, prev, cur, dt_ms).velocity.x == 450_000_000,
        cur.left ==> spec_tick_controller(c, pos, prev, cur, dt_ms).velocity.x == -450_000_000,
{
}

/// Ground clamp idempotence: at rest on the ground with no intent and no
/// jump request, one integrator tick of any legal length changes neither the
/// position nor the velocity, lands on the ground again, and re-establishes
/// every premise of this law — so any number of such ticks stays put.
pub proof fn lemma_ground_idle_fixed_point(c: MovementController, pos: Vec2i, dt_ms: u64)
    requires
        c.wf(),
        dt_ms <= MAX_TICK_MS,
        c.intent.x == 0,
        c.intent.y == 0,
        !c.want_jump,
        c.velocity.y == 0,
        pos.y == 0,
    ensures
        spec_moved_position(c, pos, dt_ms) == pos,
        spec_moved_controller(c, pos, dt_ms).velocity == (Vec2i { x: 0, y: 0 }),
        spec_moved_controller(c, pos, dt_ms).on_ground,
        !spec_moved_controller(c, pos, dt_ms).want_jump,
        spec_moved_controller(c, pos, dt_ms).intent == c.intent,
        spec_moved_controller(c, pos, dt_ms).max_speed == c.max_speed,
        spec_moved_controller(c, pos, dt_ms).wf(),
{
    assert(c.intent.x * c.max_speed == 0) by (nonlinear_arith)
        requires
            c.intent.x == 0,
    ;
    let vx = crate::movement::spec_vx_after(c);
    assert(vx * dt_ms == 0) by (nonlinear_arith)
        requires
            vx == 0,
    ;
    let vy = crate::movement::spec_vy_after(c, dt_ms);
    assert(vy <= 0);
    assert(vy * dt_ms <= 0) by (nonlinear_arith)
        requires
            vy <= 0,
            dt_ms >= 0,
    ;
}

} // verus!
