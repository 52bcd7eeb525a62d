use platformer_core::animation::{
    frame_count, interval_ms, select_animation_state, update_animation_movement, PlayerAnimation,
    PlayerAnimationState, FRAME_INTERVAL_MS, IDLE_FRAMES, JUMPING_FRAMES, RUNNING_FRAMES,
    SLIDING_FRAMES, WALKING_FRAMES, WALL_SLIDING_FRAMES,
};
use platformer_core::movement::{MovementController, Vec2i};
use platformer_core::sprite::{ImageHandle, Sprite};

fn controller_with(
    wall: bool,
    ground: bool,
    slide: bool,
    run: bool,
    intent_x: i64,
    intent_y: i64,
) -> MovementController {
    let mut c = MovementController::default();
    c.is_wall_sliding = wall;
    c.on_ground = ground;
    c.is_sliding = slide;
    c.is_running = run;
    c.intent = Vec2i { x: intent_x, y: intent_y };
    c
}

/// First matching rule of the priority list wins, over every combination of
/// the flags and a zero or non-zero intent.
#[test]
fn priority_order_exhaustive() {
    for bits in 0u32..32 {
        let wall = bits & 1 != 0;
        let ground = bits & 2 != 0;
        let slide = bits & 4 != 0;
        let run = bits & 8 != 0;
        let moving = bits & 16 != 0;
        let ix = if moving { 1000 } else { 0 };
        let c = controller_with(wall, ground, slide, run, ix, 0);
        let expected = if wall {
            PlayerAnimationState::WallSliding
        } else if !ground {
            PlayerAnimationState::Jumping
        } else if slide {
            PlayerAnimationState::Sliding
        } else if run {
            PlayerAnimationState::Running
        } else if moving {
            PlayerAnimationState::Walking
        } else {
            PlayerAnimationState::Idling
        };
        assert_eq!(select_animation_state(&c), expected, "bits {bits}");
    }
}

/// A vertical-only intent still counts as a non-zero intent.
#[test]
fn priority_vertical_intent_walks() {
    let c = controller_with(false, true, false, false, 0, 400);
    assert_eq!(select_animation_state(&c), PlayerAnimationState::Walking);
}

#[test]
fn frame_counts_match_reference_configuration() {
    assert_eq!(IDLE_FRAMES, 22);
    assert_eq!(WALKING_FRAMES, 22);
    assert_eq!(RUNNING_FRAMES, 8);
    assert_eq!(JUMPING_FRAMES, 1);
    assert_eq!(SLIDING_FRAMES, 1);
    assert_eq!(WALL_SLIDING_FRAMES, 1);
    assert_eq!(FRAME_INTERVAL_MS, 50);
    assert_eq!(frame_count(PlayerAnimationState::Idling), 22);
    assert_eq!(frame_count(PlayerAnimationState::Running), 8);
    assert_eq!(interval_ms(PlayerAnimationState::Walking), 50);
}

#[test]
fn new_clock_is_fresh_idling() {
    let a = PlayerAnimation::new();
    assert_eq!(a.state, PlayerAnimationState::Idling);
    assert_eq!(a.frame, 0);
    assert_eq!(a.elapsed_ms, 0);
    assert!(!a.fired);
}

/// Ticking by a whole number of intervals advances the frame by that number
/// modulo the frame count; a short tick leaves it unchanged.
#[test]
fn clock_determinism() {
    let mut a = PlayerAnimation::new();
    a.update_timer(3 * 50);
    assert_eq!(a.frame, 3);
    assert_eq!(a.elapsed_ms, 0);
    assert!(a.fired);

    let mut b = PlayerAnimation::new();
    b.update_timer(45 * 50);
    assert_eq!(b.frame, 45 % 22);
    assert!(b.fired);

    let mut c = PlayerAnimation::new();
    c.update_timer(49);
    assert_eq!(c.frame, 0);
    assert_eq!(c.elapsed_ms, 49);
    assert!(!c.fired);
}

/// Multiple fires in one oversized tick each advance the frame once.
#[test]
fn clock_multi_fire_in_one_tick() {
    let mut a = PlayerAnimation::new();
    a.update_timer(120);
    assert_eq!(a.frame, 2);
    assert_eq!(a.elapsed_ms, 20);
    assert!(a.fired);
}

/// A single-frame state still owns a timer but its frame index stays zero.
#[test]
fn single_frame_state_stays_at_zero() {
    let mut a = PlayerAnimation::new();
    a.update_state(PlayerAnimationState::Jumping);
    a.update_timer(50 * 7);
    assert_eq!(a.frame, 0);
    assert!(a.fired);
}

/// A state change is a hard cut: frame and timer restart from zero.
#[test]
fn state_cut_resets_clock() {
    let mut a = PlayerAnimation::new();
    a.update_timer(50 * 5 + 30);
    assert_eq!(a.frame, 5);
    assert_eq!(a.elapsed_ms, 30);
    a.update_state(PlayerAnimationState::Running);
    assert_eq!(a.state, PlayerAnimationState::Running);
    assert_eq!(a.frame, 0);
    assert_eq!(a.elapsed_ms, 0);
    assert!(!a.fired);
}

/// An unchanged state leaves the clock free-running.
#[test]
fn unchanged_state_keeps_clock() {
    let mut a = PlayerAnimation::new();
    a.update_timer(50 * 5 + 30);
    let before = a;
    a.update_state(PlayerAnimationState::Idling);
    assert_eq!(a, before);
}

/// At rest, 50ms interval, 22 idle frames: after 1100ms of ticks the frame
/// index is back at zero, whatever the tick granularity; a single 2200ms
/// tick lands on zero as well.
#[test]
fn concrete_scenario_1100ms_returns_to_frame_zero() {
    // 22 ticks of 50ms.
    let mut a = PlayerAnimation::new();
    for _ in 0..22 {
        a.update_timer(50);
    }
    assert_eq!(a.frame, 0);

    // 11 ticks of 100ms.
    let mut b = PlayerAnimation::new();
    for _ in 0..11 {
        b.update_timer(100);
    }
    assert_eq!(b.frame, 0);

    // Uneven granularity summing to 1100ms.
    let mut c = PlayerAnimation::new();
    for dt in [7u64, 43, 250, 300, 400, 100] {
        c.update_timer(dt);
    }
    assert_eq!(c.frame, 0);

    // One oversized 2200ms tick: 44 fires, 44 % 22 == 0.
    let mut d = PlayerAnimation::new();
    d.update_timer(2200);
    assert_eq!(d.frame, 0);
    assert!(d.fired);
}

/// The clock is a function of total elapsed time: splitting a tick changes
/// neither the frame nor the accumulator.
#[test]
fn clock_granularity_invariance() {
    let mut whole = PlayerAnimation::new();
    whole.update_timer(70);

    let mut split = PlayerAnimation::new();
    split.update_timer(30);
    split.update_timer(40);

    assert_eq!(whole.frame, split.frame);
    assert_eq!(whole.elapsed_ms, split.elapsed_ms);
    assert_eq!(whole.state, split.state);
    assert_eq!(whole.frame, 1);
    assert_eq!(whole.elapsed_ms, 20);
}

#[test]
fn changed_reports_last_tick_fire() {
    let mut a = PlayerAnimation::new();
    assert!(!a.changed());
    a.update_timer(50);
    assert!(a.changed());
    a.update_timer(10);
    assert!(!a.changed());
}

#[test]
fn atlas_index_follows_frame() {
    let mut a = PlayerAnimation::new();
    a.update_timer(50 * 9);
    assert_eq!(a.get_atlas_index(), 9);
}

/// Horizontal intent turns the sprite; zero intent keeps the last facing.
#[test]
fn movement_update_flips_sprite_and_selects_state() {
    let mut sprite = Sprite { image: ImageHandle(1), flip_x: false, texture_atlas: None };
    let mut anim = PlayerAnimation::new();

    let mut c = MovementController::default();
    c.on_ground = true;
    c.intent = Vec2i { x: -1000, y: 0 };
    update_animation_movement(&c, &mut sprite, &mut anim);
    assert!(sprite.flip_x);
    assert_eq!(anim.state, PlayerAnimationState::Walking);

    c.intent = Vec2i { x: 0, y: 0 };
    update_animation_movement(&c, &mut sprite, &mut anim);
    assert!(sprite.flip_x, "zero intent keeps the last facing");
    assert_eq!(anim.state, PlayerAnimationState::Idling);
}
