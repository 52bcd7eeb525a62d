use platformer_core::animation::{PlayerAnimation, PlayerAnimationState};
use platformer_core::movement::{InputSnapshot, MovementController, Vec2i, JUMP_IMPULSE};
use platformer_core::pipeline::simulate_tick;
use platformer_core::player::default_player_skin;
use platformer_core::player::PlayerAssets;
use platformer_core::sprite::{AtlasLayoutHandle, AudioHandle, ImageHandle, Sprite, TextureAtlas};

fn test_skin() -> platformer_core::player::PlayerSkin {
    let assets = PlayerAssets {
        steps: vec![AudioHandle(90), AudioHandle(91), AudioHandle(92), AudioHandle(93)],
        idle: ImageHandle(1),
        jumping: ImageHandle(2),
        running: ImageHandle(3),
        sliding: ImageHandle(4),
        wall_sliding: ImageHandle(5),
    };
    default_player_skin(&assets, AtlasLayoutHandle(10), AtlasLayoutHandle(30))
}

const NO_KEYS: InputSnapshot = InputSnapshot { left: false, right: false, jump: false, run: false };

/// A full tick at rest on the ground: nothing moves, the entity idles, the
/// sprite shows the idle sheet.
#[test]
fn tick_at_rest_idles() {
    let skin = test_skin();
    let mut c = MovementController::default();
    c.on_ground = true;
    let mut pos = Vec2i { x: 0, y: 0 };
    let mut anim = PlayerAnimation::new();
    let mut sprite = Sprite { image: ImageHandle(1), flip_x: false, texture_atlas: None };

    simulate_tick(&skin, &NO_KEYS, &NO_KEYS, 16, &mut c, &mut pos, &mut anim, &mut sprite);

    assert_eq!(pos, Vec2i { x: 0, y: 0 });
    assert_eq!(c.velocity, Vec2i { x: 0, y: 0 });
    assert!(c.on_ground);
    assert_eq!(anim.state, PlayerAnimationState::Idling);
    assert_eq!(sprite.image, ImageHandle(1));
    assert_eq!(
        sprite.texture_atlas,
        Some(TextureAtlas { layout: AtlasLayoutHandle(10), index: 0 })
    );
}

/// A press edge makes the entity jump for exactly one tick; holding the key
/// across the next tick does not jump again after landing would allow it.
#[test]
fn tick_jump_edge_is_one_shot() {
    let skin = test_skin();
    let mut c = MovementController::default();
    c.on_ground = true;
    let mut pos = Vec2i { x: 0, y: 0 };
    let mut anim = PlayerAnimation::new();
    let mut sprite = Sprite { image: ImageHandle(1), flip_x: false, texture_atlas: None };

    let jump_held = InputSnapshot { left: false, right: false, jump: true, run: false };

    simulate_tick(&skin, &NO_KEYS, &jump_held, 10, &mut c, &mut pos, &mut anim, &mut sprite);
    assert_eq!(c.velocity.y, JUMP_IMPULSE);
    assert!(!c.on_ground);
    assert!(!c.want_jump, "the request is consumed the tick it is read");
    assert_eq!(anim.state, PlayerAnimationState::Jumping);
    // Jumping has no atlas: the assignment is cleared.
    assert_eq!(sprite.image, ImageHandle(2));
    assert_eq!(sprite.texture_atlas, None);

    // Key still held on the next tick: no new request is raised.
    simulate_tick(&skin, &jump_held, &jump_held, 10, &mut c, &mut pos, &mut anim, &mut sprite);
    assert!(!c.want_jump);
}

/// Running to the right: state and facing follow, and the running sheet with
/// its own layout is assigned.
#[test]
fn tick_running_selects_running_visual() {
    let skin = test_skin();
    let mut c = MovementController::default();
    c.on_ground = true;
    let mut pos = Vec2i { x: 0, y: 0 };
    let mut anim = PlayerAnimation::new();
    let mut sprite = Sprite {
        image: ImageHandle(1),
        flip_x: true,
        texture_atlas: Some(TextureAtlas { layout: AtlasLayoutHandle(10), index: 9 }),
    };

    let run_right = InputSnapshot { left: false, right: true, jump: false, run: true };
    simulate_tick(&skin, &NO_KEYS, &run_right, 16, &mut c, &mut pos, &mut anim, &mut sprite);

    assert!(c.is_running);
    assert_eq!(c.velocity.x, 450_000_000);
    assert_eq!(pos.x, 450_000_000 * 16);
    assert!(!sprite.flip_x, "moving right faces right");
    assert_eq!(anim.state, PlayerAnimationState::Running);
    assert_eq!(anim.frame, 0, "a state cut re-arms the clock at frame zero");
    // The layout swap resets the index.
    assert_eq!(sprite.image, ImageHandle(3));
    assert_eq!(
        sprite.texture_atlas,
        Some(TextureAtlas { layout: AtlasLayoutHandle(30), index: 0 })
    );
}

/// The state-cut invariant across ticks: whenever the selected state changes
/// from one tick to the next, the frame index right after that tick is zero.
#[test]
fn tick_state_change_always_lands_on_frame_zero() {
    let skin = test_skin();
    let mut c = MovementController::default();
    c.on_ground = true;
    let mut pos = Vec2i { x: 0, y: 0 };
    let mut anim = PlayerAnimation::new();
    let mut sprite = Sprite { image: ImageHandle(1), flip_x: false, texture_atlas: None };

    // Let the idle clock run to a non-zero frame.
    simulate_tick(&skin, &NO_KEYS, &NO_KEYS, 50 * 5, &mut c, &mut pos, &mut anim, &mut sprite);
    assert_eq!(anim.frame, 5);

    // Walk: the state changes, the frame restarts.
    let right = InputSnapshot { left: false, right: true, jump: false, run: false };
    let before = anim.state;
    simulate_tick(&skin, &NO_KEYS, &right, 50 * 3, &mut c, &mut pos, &mut anim, &mut sprite);
    assert_ne!(anim.state, before);
    assert_eq!(anim.state, PlayerAnimationState::Walking);
    assert_eq!(anim.frame, 0);
    assert_eq!(anim.elapsed_ms, 0);
}

/// Ticks keep the clock deterministic through the full pipeline: 1100ms of
/// idling in any granularity returns to frame zero.
#[test]
fn tick_scenario_1100ms_of_idling() {
    let skin = test_skin();
    let mut c = MovementController::default();
    c.on_ground = true;
    let mut pos = Vec2i { x: 0, y: 0 };
    let mut anim = PlayerAnimation::new();
    let mut sprite = Sprite { image: ImageHandle(1), flip_x: false, texture_atlas: None };

    for dt in [50u64; 22] {
        simulate_tick(&skin, &NO_KEYS, &NO_KEYS, dt, &mut c, &mut pos, &mut anim, &mut sprite);
    }
    assert_eq!(anim.state, PlayerAnimationState::Idling);
    assert_eq!(anim.frame, 0);
    assert_eq!(pos, Vec2i { x: 0, y: 0 });
}
