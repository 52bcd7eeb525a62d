//! The player's visual catalog: which image (and optional tiled atlas) each
//! animation state is drawn with, and the deterministic fallback when a
//! state has no configured visual.

use vstd::prelude::*;

use crate::animation::{PlayerAnimation, PlayerAnimationState};
use crate::movement::{MovementController, ScreenWrap};
use crate::sprite::{AtlasLayoutHandle, AudioHandle, ImageHandle, Sprite, TextureAtlas};

verus! {

/// Marker component for the player entity.
#[derive(Clone, Copy, Debug, PartialEq, Eq, Structural)]
pub struct Player;

/// Identifiers of the player's sprite and audio assets.
#[derive(Debug, PartialEq, Eq)]
pub struct PlayerAssets {
    pub steps: Vec<AudioHandle>,
    pub idle: ImageHandle,
    pub jumping: ImageHandle,
    pub running: ImageHandle,
    pub sliding: ImageHandle,
    pub wall_sliding: ImageHandle,
}

/// The visual configuration of one animation state.
///
/// `atlas == None` means a single static image; `Some(layout)` means the
/// image is a tiled sheet with `frames` cells.
#[derive(Clone, Copy, Debug, PartialEq, Eq, Structural)]
pub struct PlayerVisual {
    pub image: ImageHandle,
    /// None = single-frame image only. Some(layout) = atlas-based sheet.
    pub atlas: Option<AtlasLayoutHandle>,
    /// Number of frames in the atlas.
    pub frames: usize,
}

/// A catalog with no visuals at all can never render anything.
#[derive(Clone, Copy, Debug, PartialEq, Eq, Structural)]
pub enum SkinError {
    NoVisuals,
}

/// Read-only catalog from animation state to visual, one optional entry per
/// state. Built once at setup and never mutated; a well-formed skin has at
/// least one entry.
#[derive(Clone, Copy, Debug, PartialEq, Eq)]
pub struct PlayerSkin {
    pub idling: Option<PlayerVisual>,
    pub walking: Option<PlayerVisual>,
    pub running: Option<PlayerVisual>,
    pub jumping: Option<PlayerVisual>,
    pub sliding: Option<PlayerVisual>,
    pub wall_sliding: Option<PlayerVisual>,
}

impl PlayerSkin {
    /// The catalog entry configured for `state`, if any.
    pub open spec fn spec_entry(self, state: PlayerAnimationState) -> Option<PlayerVisual> {
        match state {
            PlayerAnimationState::Idling => self.idling,
            PlayerAnimationState::Walking => self.walking,
            PlayerAnimationState::Running => self.running,
            PlayerAnimationState::Jumping => self.jumping,
            PlayerAnimationState::Sliding => self.sliding,
            PlayerAnimationState::WallSliding => self.wall_sliding,
        }
    }

    /// Well-formedness: at least one state has a configured visual.
    pub open spec fn wf(self) -> bool {
        self.idling is Some || self.walking is Some || self.running is Some || self.jumping
            is Some || self.sliding is Some || self.wall_sliding is Some
    }

    /// The first configured visual, in the fixed state order. Used as the
    /// last fallback when neither the requested state nor idling has one.
    pub open spec fn spec_first_visual(self) -> Option<PlayerVisual> {
        if self.idling is Some {
            self.idling
        } else if self.walking is Some {
            self.walking
        } else if self.running is Some {
            self.running
        } else if self.jumping is Some {
            self.jumping
        } else if self.sliding is Some {
            self.sliding
        } else {
            self.wall_sliding
        }
    }

    /// The visual `get` resolves for `state`: the state's own entry, else
    /// the idling entry, else the first configured one.
    pub open spec fn spec_resolved(self, state: PlayerAnimationState) -> Option<PlayerVisual> {
        if self.spec_entry(state) is Some {
            self.spec_entry(state)
        } else if self.idling is Some {
            self.idling
        } else {
            self.spec_first_visual()
        }
    }

    /// Build a catalog, rejecting an empty one: with no visuals at all
    /// nothing could ever be rendered, so setup must fail rather than
    /// proceed.
    pub fn new(
        idling: Option<PlayerVisual>,
        walking: Option<PlayerVisual>,
        running: Option<PlayerVisual>,
        jumping: Option<PlayerVisual>,
        sliding: Option<PlayerVisual>,
        wall_sliding: Option<PlayerVisual>,
    ) -> (r: Result<PlayerSkin, SkinError>)
        ensures
            ({
                let skin = PlayerSkin { idling, walking, running, jumping, sliding, wall_sliding };
                if skin.wf() {
                    r == Result::<PlayerSkin, SkinError>::Ok(skin)
                } else {
                    r == Result::<PlayerSkin, SkinError>::Err(SkinError::NoVisuals)
                }
            }),
    {
        let skin = PlayerSkin { idling, walking, running, jumping, sliding, wall_sliding };
        if skin.idling.is_some() || skin.walking.is_some() || skin.running.is_some()
            || skin.jumping.is_some() || skin.sliding.is_some() || skin.wall_sliding.is_some() {
            Ok(skin)
        } else {
            Err(SkinError::NoVisuals)
        }
    }

    /// Look up the visual for `state`. A missing entry falls back to the
    /// idling visual when configured, otherwise to the first configured
    /// visual; a well-formed skin always yields one.
    pub fn get(&self, state: PlayerAnimationState) -> (v: PlayerVisual)
        requires
            self.wf(),
        ensures
            Some(v) == self.spec_resolved(state),
    {
        let own = match state {
            PlayerAnimationState::Idling => self.idling,
            PlayerAnimationState::Walking => self.walking,
            PlayerAnimationState::Running => self.running,
            PlayerAnimationState::Jumping => self.jumping,
            PlayerAnimationState::Sliding => self.sliding,
            PlayerAnimationState::WallSliding => self.wall_sliding,
        };
        if let Some(v) = own {
            return v;
        }
        if let Some(v) = self.idling {
            return v;
        }
        if let Some(v) = self.walking {
            return v;
        }
        if let Some(v) = self.running {
            return v;
        }
        if let Some(v) = self.jumping {
            return v;
        }
        if let Some(v) = self.sliding {
            return v;
        }
        if let Some(v) = self.wall_sliding {
            return v;
        }
        proof {
            assert(false);
        }
        PlayerVisual { image: ImageHandle(0), atlas: None, frames: 0 }
    }
}

/// The default catalog: idling and walking share the idle sheet with 22
/// frames, running uses its own sheet with 8 frames, and jumping is a single
/// static image without an atlas. Sliding and wall sliding have no entry and
/// resolve through the fallback policy.
pub fn default_player_skin(
    assets: &PlayerAssets,
    idle_atlas: AtlasLayoutHandle,
    running_atlas: AtlasLayoutHandle,
) -> (skin: PlayerSkin)
    ensures
        skin == (PlayerSkin {
            idling: Some(
                PlayerVisual { image: assets.idle, atlas: Some(idle_atlas), frames: 22 },
            ),
            walking: Some(
                PlayerVisual { image: assets.idle, atlas: Some(idle_atlas), frames: 22 },
            ),
            running: Some(
                PlayerVisual { image: assets.running, atlas: Some(running_atlas), frames: 8 },
            ),
            jumping: Some(PlayerVisual { image: assets.jumping, atlas: None, frames: 1 }),
            sliding: None,
            wall_sliding: None,
        }),
        skin.wf(),
{
    PlayerSkin {
        idling: Some(PlayerVisual { image: assets.idle, atlas: Some(idle_atlas), frames: 22 }),
        walking: Some(PlayerVisual { image: assets.idle, atlas: Some(idle_atlas), frames: 22 }),
        running: Some(
            PlayerVisual { image: assets.running, atlas: Some(running_atlas), frames: 8 },
        ),
        jumping: Some(PlayerVisual { image: assets.jumping, atlas: None, frames: 1 }),
        sliding: None,
        wall_sliding: None,
    }
}

/// Everything a freshly spawned player entity starts with.
#[derive(Clone, Copy, Debug, PartialEq, Eq)]
pub struct PlayerBundle {
    pub player: Player,
    pub sprite: Sprite,
    pub controller: MovementController,
    pub screen_wrap: ScreenWrap,
    pub animation: PlayerAnimation,
}

/// Build the components a new player entity spawns with: an idling
/// animation clock, a default controller, and a sprite already pointing at
/// the idling visual's image, atlas layout and frame zero.
pub fn setup_player(skin: &PlayerSkin) -> (bundle: PlayerBundle)
    requires
        skin.wf(),
        (skin.spec_resolved(PlayerAnimationState::Idling) matches Some(v) && v.atlas is Some),
    ensures
        bundle.animation == PlayerAnimation::spec_fresh(PlayerAnimationState::Idling),
        bundle.controller == (MovementController {
            intent: crate::movement::Vec2i { x: 0, y: 0 },
            max_speed: crate::movement::DEFAULT_MAX_SPEED,
            velocity: crate::movement::Vec2i { x: 0, y: 0 },
            on_ground: false,
            is_sliding: false,
            is_wall_sliding: false,
            want_jump: false,
            want_run: false,
            is_running: false,
        }),
        bundle.sprite == (Sprite {
            image: skin.spec_resolved(PlayerAnimationState::Idling)->Some_0.image,
            flip_x: false,
            texture_atlas: Some(
                TextureAtlas {
                    layout: skin.spec_resolved(PlayerAnimationState::Idling)->Some_0.atlas->Some_0,
                    index: 0,
                },
            ),
        }),
{
    let player_animation = PlayerAnimation::new();
    let idle_visual = skin.get(PlayerAnimationState::Idling);

    let sprite = Sprite {
        image: idle_visual.image,
        flip_x: false,
        texture_atlas: Some(
            TextureAtlas {
                layout: idle_visual.atlas.unwrap(),
                index: player_animation.get_atlas_index(),
            },
        ),
    };

    PlayerBundle {
        player: Player,
        sprite,
        controller: MovementController::default(),
        screen_wrap: ScreenWrap,
        animation: player_animation,
    }
}

} // verus!
