//! Animation state machine and per-entity frame clock.
//!
//! Each tick the machine selects exactly one [`PlayerAnimationState`] from
//! the movement flags using a fixed priority order, and advances a repeating
//! per-state timer. A state change is a hard cut: the timer and the frame
//! index restart from zero. Within an unchanged state the timer free-runs:
//! every time the accumulated elapsed time reaches the state's interval the
//! frame index advances by one, modulo the state's frame count, so an
//! oversized tick can advance the frame several times at once.

use vstd::prelude::*;

use crate::movement::MovementController;
use crate::player::{PlayerSkin, PlayerVisual};
use crate::sprite::{Sprite, TextureAtlas};

verus! {

/// The closed set of animation states; exactly one is active per entity.
#[derive(Clone, Copy, Debug, PartialEq, Eq, Structural)]
pub enum PlayerAnimationState {
    Idling,
    Walking,
    Running,
    Jumping,
    Sliding,
    WallSliding,
}

/// The number of idle frames.
pub const IDLE_FRAMES: usize = 22;
/// The number of walking frames.
pub const WALKING_FRAMES: usize = 22;
/// The number of running frames.
pub const RUNNING_FRAMES: usize = 8;
/// The number of jumping frames.
pub const JUMPING_FRAMES: usize = 1;
/// The number of sliding frames.
pub const SLIDING_FRAMES: usize = 1;
/// The number of wall sliding frames.
pub const WALL_SLIDING_FRAMES: usize = 1;

/// Every state of the current design shows a new frame each 50 ms.
pub const FRAME_INTERVAL_MS: u64 = 50;

/// How many frames a state's animation cycles through.
pub open spec fn spec_frame_count(state: PlayerAnimationState) -> nat {
    match state {
        PlayerAnimationState::Idling => IDLE_FRAMES as nat,
        PlayerAnimationState::Walking => WALKING_FRAMES as nat,
        PlayerAnimationState::Running => RUNNING_FRAMES as nat,
        PlayerAnimationState::Jumping => JUMPING_FRAMES as nat,
        PlayerAnimationState::Sliding => SLIDING_FRAMES as nat,
        PlayerAnimationState::WallSliding => WALL_SLIDING_FRAMES as nat,
    }
}

/// The repeating timer interval of a state, in milliseconds.
pub open spec fn spec_interval_ms(state: PlayerAnimationState) -> u64 {
    FRAME_INTERVAL_MS
}

/// Frame count of a state, as executable code.
pub fn frame_count(state: PlayerAnimationState) -> (n: usize)
    ensures
        n == spec_frame_count(state),
        n >= 1,
{
    match state {
        PlayerAnimationState::Idling => IDLE_FRAMES,
        PlayerAnimationState::Walking => WALKING_FRAMES,
        PlayerAnimationState::Running => RUNNING_FRAMES,
        PlayerAnimationState::Jumping => JUMPING_FRAMES,
        PlayerAnimationState::Sliding => SLIDING_FRAMES,
        PlayerAnimationState::WallSliding => WALL_SLIDING_FRAMES,
    }
}

/// Timer interval of a state, as executable code.
pub fn interval_ms(state: PlayerAnimationState) -> (i: u64)
    ensures
        i == spec_interval_ms(state),
        i >= 1,
{
    FRAME_INTERVAL_MS
}

/// The animation state selected from the movement flags, first matching rule
/// of the priority order wins: wall slide, then airborne, then slide, then
/// run, then non-zero intent, else idle.
pub open spec fn spec_selected_state(c: MovementController) -> PlayerAnimationState {
    if c.is_wall_sliding {
        PlayerAnimationState::WallSliding
    } else if !c.on_ground {
        PlayerAnimationState::Jumping
    } else if c.is_sliding {
        PlayerAnimationState::Sliding
    } else if c.is_running {
        PlayerAnimationState::Running
    } else if !(c.intent.x == 0 && c.intent.y == 0) {
        PlayerAnimationState::Walking
    } else {
        PlayerAnimationState::Idling
    }
}

/// Select the animation state for the current movement flags.
pub fn select_animation_state(c: &MovementController) -> (state: PlayerAnimationState)
    ensures
        state == spec_selected_state(*c),
{
    if c.is_wall_sliding {
        PlayerAnimationState::WallSliding
    } else if !c.on_ground {
        PlayerAnimationState::Jumping
    } else if c.is_sliding {
        PlayerAnimationState::Sliding
    } else if c.is_running {
        PlayerAnimationState::Running
    } else if !(c.intent.x == 0 && c.intent.y == 0) {
        PlayerAnimationState::Walking
    } else {
        PlayerAnimationState::Idling
    }
}

/// Per-entity animation clock and active state.
///
/// `elapsed_ms` is the repeating timer's accumulator; it always stays below
/// the active state's interval. `frame` always stays below the active
/// state's frame count. `fired` records whether the timer reached its
/// interval at least once during the most recent tick.
#[derive(Clone, Copy, Debug, PartialEq, Eq, Structural)]
pub struct PlayerAnimation {
    pub elapsed_ms: u64,
    pub fired: bool,
    pub frame: usize,
    pub state: PlayerAnimationState,
}

impl PlayerAnimation {
    /// Structural invariant: the accumulator has been reduced below the
    /// interval and the frame index wrapped below the frame count.
    pub open spec fn wf(self) -> bool {
        &&& self.elapsed_ms < spec_interval_ms(self.state)
        &&& self.frame < spec_frame_count(self.state)
    }

    /// A fresh clock for `state`: frame zero, timer re-armed.
    pub open spec fn spec_fresh(state: PlayerAnimationState) -> PlayerAnimation {
        PlayerAnimation { elapsed_ms: 0, fired: false, frame: 0, state }
    }

    fn fresh(state: PlayerAnimationState) -> (anim: PlayerAnimation)
        ensures
            anim == Self::spec_fresh(state),
            anim.wf(),
    {
        PlayerAnimation { elapsed_ms: 0, fired: false, frame: 0, state }
    }

    fn idling() -> (anim: PlayerAnimation)
        ensures
            anim == Self::spec_fresh(PlayerAnimationState::Idling),
            anim.wf(),
    {
        Self::fresh(PlayerAnimationState::Idling)
    }

    fn walking() -> (anim: PlayerAnimation)
        ensures
            anim == Self::spec_fresh(PlayerAnimationState::Walking),
            anim.wf(),
    {
        Self::fresh(PlayerAnimationState::Walking)
    }

    fn running() -> (anim: PlayerAnimation)
        ensures
            anim == Self::spec_fresh(PlayerAnimationState::Running),
            anim.wf(),
    {
        Self::fresh(PlayerAnimationState::Running)
    }

    fn jumping() -> (anim: PlayerAnimation)
        ensures
            anim == Self::spec_fresh(PlayerAnimationState::Jumping),
            anim.wf(),
    {
        Self::fresh(PlayerAnimationState::Jumping)
    }

    fn sliding() -> (anim: PlayerAnimation)
        ensures
            anim == Self::spec_fresh(PlayerAnimationState::Sliding),
            anim.wf(),
    {
        Self::fresh(PlayerAnimationState::Sliding)
    }

    fn wall_sliding() -> (anim: PlayerAnimation)
        ensures
            anim == Self::spec_fresh(PlayerAnimationState::WallSliding),
            anim.wf(),
    {
        Self::fresh(PlayerAnimationState::WallSliding)
    }

    /// A new entity starts idling.
    pub fn new() -> (anim: PlayerAnimation)
        ensures
            anim == Self::spec_fresh(PlayerAnimationState::Idling),
            anim.wf(),
    {
        Self::idling()
    }

    /// How often the repeating timer fires when `delta_ms` elapses on top of
    /// the accumulated time.
    pub open spec fn spec_fires(self, delta_ms: u64) -> nat {
        ((self.elapsed_ms + delta_ms) / spec_interval_ms(self.state) as int) as nat
    }

    /// The clock after `delta_ms` of elapsed time within an unchanged state.
    pub open spec fn spec_ticked(self, delta_ms: u64) -> PlayerAnimation {
        let interval = spec_interval_ms(self.state) as int;
        let total = self.elapsed_ms + delta_ms;
        PlayerAnimation {
            elapsed_ms: (total % interval) as u64,
            fired: total / interval > 0,
            frame: ((self.frame + total / interval) % spec_frame_count(self.state) as int) as usize,
            state: self.state,
        }
    }

    /// Advance the repeating timer by `delta_ms`. Every full interval the
    /// timer fires once and the frame index advances by one, modulo the
    /// state's frame count, so one oversized tick can fire several times.
    pub fn update_timer(&mut self, delta_ms: u64)
        requires
            old(self).wf(),
            delta_ms <= crate::movement::MAX_TICK_MS,
        ensures
            *final(self) == old(self).spec_ticked(delta_ms),
            final(self).wf(),
    {
        let interval = interval_ms(self.state);
        let total = self.elapsed_ms + delta_ms;
        let fires = total / interval;
        self.elapsed_ms = total % interval;
        self.fired = fires > 0;
        let count = frame_count(self.state);
        assert(self.frame + fires <= usize::MAX) by {
            assert(fires <= total);
        }
        self.frame = ((self.frame as u64 + fires) % count as u64) as usize;
    }

    /// Hard-cut to `state` if it differs from the active one: the frame
    /// index and the timer restart from zero. An unchanged state leaves the
    /// clock free-running.
    pub fn update_state(&mut self, state: PlayerAnimationState)
        ensures
            old(self).state == state ==> *final(self) == *old(self),
            old(self).state != state ==> *final(self) == Self::spec_fresh(state),
            old(self).wf() ==> final(self).wf(),
    {
        if self.state != state {
            match state {
                PlayerAnimationState::Idling => {
                    *self = Self::idling();
                },
                PlayerAnimationState::Walking => {
                    *self = Self::walking();
                },
                PlayerAnimationState::Running => {
                    *self = Self::running();
                },
                PlayerAnimationState::Jumping => {
                    *self = Self::jumping();
                },
                PlayerAnimationState::Sliding => {
                    *self = Self::sliding();
                },
                PlayerAnimationState::WallSliding => {
                    *self = Self::wall_sliding();
                },
            }
        }
    }

    /// Whether the timer fired at least once during the most recent tick.
    pub fn changed(&self) -> (c: bool)
        ensures
            c == self.fired,
    {
        self.fired
    }

    /// The sprite-sheet cell the clock currently points at.
    pub fn get_atlas_index(&self) -> (idx: usize)
        ensures
            idx == self.frame,
    {
        self.frame
    }
}

/// Update the sprite's facing and the animation state from the movement
/// flags: a non-zero horizontal intent turns the sprite towards it, and the
/// state machine cuts to the selected state.
pub fn update_animation_movement(
    c: &MovementController,
    sprite: &mut Sprite,
    animation: &mut PlayerAnimation,
)
    ensures
        c.intent.x != 0 ==> final(sprite).flip_x == (c.intent.x < 0),
        c.intent.x == 0 ==> final(sprite).flip_x == old(sprite).flip_x,
        final(sprite).image == old(sprite).image,
        final(sprite).texture_atlas == old(sprite).texture_atlas,
        old(animation).state == spec_selected_state(*c) ==> *final(animation) == *old(
            animation,
        ),
        old(animation).state != spec_selected_state(*c) ==> *final(animation)
            == PlayerAnimation::spec_fresh(spec_selected_state(*c)),
        old(animation).wf() ==> final(animation).wf(),
{
    let dx = c.intent.x;
    if dx != 0 {
        sprite.flip_x = dx < 0;
    }
    let state = select_animation_state(c);
    animation.update_state(state);
}

/// The atlas cell to display: the frame index wrapped into the visual's own
/// frame count when that count is positive, else zero. The wrap guards
/// against a catalog entry whose declared frame count does not match the
/// state machine's.
pub open spec fn spec_display_index(visual: PlayerVisual, frame: usize) -> usize {
    if visual.frames > 0 {
        (frame as int % visual.frames as int) as usize
    } else {
        0
    }
}

/// The sprite after the visual resolver ran: the image always follows the
/// resolved visual. With no atlas in the visual any previous atlas
/// assignment is cleared; with one, a missing assignment is created, a
/// differing layout is swapped in with a freshly computed index, and an
/// unchanged layout has its index rewritten only when the clock fired this
/// tick.
pub open spec fn spec_resolved_sprite(
    skin: PlayerSkin,
    animation: PlayerAnimation,
    sprite: Sprite,
) -> Sprite {
    match skin.spec_resolved(animation.state) {
        Some(visual) => {
            match visual.atlas {
                Some(layout) => {
                    let idx = spec_display_index(visual, animation.frame);
                    let atlas = match sprite.texture_atlas {
                        None => TextureAtlas { layout, index: idx },
                        Some(prev) => {
                            if prev.layout != layout {
                                TextureAtlas { layout, index: idx }
                            } else if animation.fired {
                                TextureAtlas { layout: prev.layout, index: idx }
                            } else {
                                prev
                            }
                        },
                    };
                    Sprite {
                        image: visual.image,
                        flip_x: sprite.flip_x,
                        texture_atlas: Some(atlas),
                    }
                },
                None => Sprite { image: visual.image, flip_x: sprite.flip_x, texture_atlas: None },
            }
        },
        None => sprite,
    }
}

/// Resolve the active animation state to what the renderer should draw:
/// look the state up in the catalog (with its fallback policy), point the
/// sprite at the visual's image, and reconcile the atlas-region assignment
/// with the visual's layout and the clock's frame index.
pub fn update_animation_atlas(skin: &PlayerSkin, animation: &PlayerAnimation, sprite: &mut Sprite)
    requires
        skin.wf(),
    ensures
        *final(sprite) == spec_resolved_sprite(*skin, *animation, *old(sprite)),
{
    let visual = skin.get(animation.state);

    // Ensure the sprite uses the correct base image for this state.
    sprite.image = visual.image;

    match visual.atlas {
        Some(layout) => {
            // Compute a safe atlas index (wrap if necessary).
            let mut idx = animation.get_atlas_index();
            if visual.frames > 0 {
                idx = idx % visual.frames;
            } else {
                idx = 0;
            }

            match sprite.texture_atlas {
                None => {
                    // No assignment yet: create one for this layout.
                    sprite.texture_atlas = Some(TextureAtlas { layout, index: idx });
                },
                Some(prev) => {
                    if prev.layout != layout {
                        // Cross-state visual swap: replace the layout and
                        // reset the index; the old index must not survive.
                        sprite.texture_atlas = Some(TextureAtlas { layout, index: idx });
                    } else if animation.changed() {
                        // Same layout: rewrite the index only when the
                        // clock fired, to avoid redundant writes.
                        sprite.texture_atlas = Some(
                            TextureAtlas { layout: prev.layout, index: idx },
                        );
                    }
                },
            }
        },
        None => {
            // Single-image visual: clear the atlas so the renderer uses the
            // raw image and no stale layout.
            sprite.texture_atlas = None;
        },
    }
}

} // verus!
