//! The render layers of the game, and which camera draws each.

use vstd::prelude::*;

verus! {

#[derive(Debug, Clone, Copy, Default)]
pub struct BgSpriteLayer;

#[derive(Debug, Clone, Copy, Default)]
pub struct BgLightLayer;

#[derive(Debug, Clone, Copy, Default)]
pub struct SpriteLayer;

#[derive(Debug, Clone, Copy, Default)]
pub struct LightLayer;

#[derive(Debug, Clone, Copy, Default)]
pub struct MenuLayer;

/// The layer that sees all layer quads and squashes them into one image.
pub const COMBINED_LAYER: usize = 30;

/// A layer drawn by its own camera into its own image.
pub trait CameraLayer {
    spec fn spec_layer() -> usize;

    /// The render layer of this camera layer.
    fn layer() -> (r: usize)
        ensures
            r == Self::spec_layer(),
    ;
}

impl CameraLayer for BgSpriteLayer {
    open spec fn spec_layer() -> usize {
        1
    }

    fn layer() -> (r: usize) {
        1
    }
}

impl CameraLayer for BgLightLayer {
    open spec fn spec_layer() -> usize {
        2
    }

    fn layer() -> (r: usize) {
        2
    }
}

impl CameraLayer for SpriteLayer {
    open spec fn spec_layer() -> usize {
        3
    }

    fn layer() -> (r: usize) {
        3
    }
}

impl CameraLayer for LightLayer {
    open spec fn spec_layer() -> usize {
        4
    }

    fn layer() -> (r: usize) {
        4
    }
}

impl CameraLayer for MenuLayer {
    open spec fn spec_layer() -> usize {
        5
    }

    fn layer() -> (r: usize) {
        5
    }
}

/// No two camera layers share a render layer, and none is the combined layer, so each
/// camera sees only what is drawn for it.
pub proof fn lemma_layers_are_distinct()
    ensures
        ({
            let ls = seq![
                BgSpriteLayer::spec_layer(),
                BgLightLayer::spec_layer(),
                SpriteLayer::spec_layer(),
                LightLayer::spec_layer(),
                MenuLayer::spec_layer(),
            ];
            &&& forall|i: int, j: int| 0 <= i < j < 5 ==> ls[i] != ls[j]
            &&& forall|i: int| 0 <= i < 5 ==> ls[i] != COMBINED_LAYER
        }),
{
}

} // verus!
