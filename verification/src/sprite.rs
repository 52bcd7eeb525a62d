//! Renderable sprite state and opaque asset handles.
//!
//! The simulation core never owns image or atlas-layout data; it only keeps
//! identifiers for them and compares those identifiers for equality (for
//! example to detect that an atlas layout swap happened). Handles are
//! therefore modeled as opaque tokens with value equality.

use vstd::prelude::*;

verus! {

/// Opaque identifier of an image asset.
#[derive(Clone, Copy, Debug, PartialEq, Eq, Structural)]
pub struct ImageHandle(pub u64);

/// Opaque identifier of a tiled-atlas layout asset.
#[derive(Clone, Copy, Debug, PartialEq, Eq, Structural)]
pub struct AtlasLayoutHandle(pub u64);

/// Opaque identifier of an audio asset.
#[derive(Clone, Copy, Debug, PartialEq, Eq, Structural)]
pub struct AudioHandle(pub u64);

/// An atlas-region assignment: which tiled layout to sample and which cell.
#[derive(Clone, Copy, Debug, PartialEq, Eq, Structural)]
pub struct TextureAtlas {
    pub layout: AtlasLayoutHandle,
    pub index: usize,
}

/// The renderable state of one entity's sprite.
///
/// `texture_atlas == None` means the raw image is presented whole;
/// `Some(atlas)` means the image is a tiled sheet and `atlas.index` selects
/// the cell.
#[derive(Clone, Copy, Debug, PartialEq, Eq)]
pub struct Sprite {
    pub image: ImageHandle,
    pub flip_x: bool,
    pub texture_atlas: Option<TextureAtlas>,
}

} // verus!
