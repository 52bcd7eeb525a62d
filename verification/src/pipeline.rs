//! The fixed per-tick pipeline: input resolution, motion integration,
//! animation clock and state selection, and visual resolution, in that
//! order. Data flows strictly downstream; no stage reads state a later stage
//! produces within the same tick.

use vstd::prelude::*;

use crate::animation::{
    spec_resolved_sprite, spec_selected_state, update_animation_atlas, update_animation_movement,
    PlayerAnimation,
};
use crate::movement::{
    apply_movement, record_player_directional_input, spec_moved_controller, spec_moved_position,
    spec_resolved, InputSnapshot, MovementController, Vec2i, MAX_TICK_MS,
};
use crate::player::PlayerSkin;
use crate::sprite::Sprite;

verus! {

/// The controller after the input resolver and the motion integrator ran.
pub open spec fn spec_tick_controller(
    c: MovementController,
    pos: Vec2i,
    prev: InputSnapshot,
    cur: InputSnapshot,
    dt_ms: u64,
) -> MovementController {
    spec_moved_controller(spec_resolved(c, prev, cur), pos, dt_ms)
}

/// The position after the input resolver and the motion integrator ran.
pub open spec fn spec_tick_position(
    c: MovementController,
    pos: Vec2i,
    prev: InputSnapshot,
    cur: InputSnapshot,
    dt_ms: u64,
) -> Vec2i {
    spec_moved_position(spec_resolved(c, prev, cur), pos, dt_ms)
}

/// The animation clock after its tick: the repeating timer advances first,
/// then the state selected from the freshly integrated movement either
/// leaves the clock free-running or hard-cuts it to frame zero.
pub open spec fn spec_tick_animation(
    anim: PlayerAnimation,
    moved: MovementController,
    dt_ms: u64,
) -> PlayerAnimation {
    let ticked = anim.spec_ticked(dt_ms);
    if ticked.state == spec_selected_state(moved) {
        ticked
    } else {
        PlayerAnimation::spec_fresh(spec_selected_state(moved))
    }
}

/// One full simulation tick for one entity.
///
/// `prev` and `cur` are the key snapshots of the previous and the current
/// tick (for press-edge detection), `dt_ms` the elapsed simulated time.
/// Each stage's effect is exactly the composition of the stage functions'
/// own contracts.
pub fn simulate_tick(
    skin: &PlayerSkin,
    prev: &InputSnapshot,
    cur: &InputSnapshot,
    dt_ms: u64,
    c: &mut MovementController,
    pos: &mut Vec2i,
    animation: &mut PlayerAnimation,
    sprite: &mut Sprite,
)
    requires
        skin.wf(),
        old(animation).wf(),
        dt_ms <= MAX_TICK_MS,
    ensures
        *final(c) == spec_tick_controller(*old(c), *old(pos), *prev, *cur, dt_ms),
        *final(pos) == spec_tick_position(*old(c), *old(pos), *prev, *cur, dt_ms),
        *final(animation) == spec_tick_animation(
            *old(animation),
            spec_tick_controller(*old(c), *old(pos), *prev, *cur, dt_ms),
            dt_ms,
        ),
        final(animation).wf(),
        final(c).wf(),
        *final(sprite) == spec_resolved_sprite(
            *skin,
            *final(animation),
            Sprite {
                image: old(sprite).image,
                flip_x: if final(c).intent.x != 0 {
                    final(c).intent.x < 0
                } else {
                    old(sprite).flip_x
                },
                texture_atlas: old(sprite).texture_atlas,
            },
        ),
{
    record_player_directional_input(prev, cur, c);
    apply_movement(c, pos, dt_ms);
    animation.update_timer(dt_ms);
    update_animation_movement(c, sprite, animation);
    update_animation_atlas(skin, animation, sprite);
}

} // verus!
