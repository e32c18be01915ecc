//! Screen and growth constants of the game.

use vstd::prelude::*;
use crate::math::UVec2;

verus! {

pub const IDEAL_WIDTH: u32 = 320;
pub const IDEAL_HEIGHT: u32 = 180;

/// How much bigger is the window then our ideal?
pub const MENU_GROWTH: u32 = 4;

pub const MENU_WIDTH: u32 = IDEAL_WIDTH * MENU_GROWTH;
pub const MENU_HEIGHT: u32 = IDEAL_HEIGHT * MENU_GROWTH;

/// To avoid pixels that are too obviously seen, render to a quad this much bigger than ideal,
/// and then zoom the camera out by this amount so it still is "ideal" size
pub const DETAIL_GROWTH: u32 = 4;

/// The ideal (unscaled) size of the screen.
pub fn ideal_vec() -> (v: UVec2)
    ensures
        v.x == IDEAL_WIDTH,
        v.y == IDEAL_HEIGHT,
{
    UVec2::new(IDEAL_WIDTH, IDEAL_HEIGHT)
}

/// The size of the menu layer: the ideal size grown by `MENU_GROWTH`.
pub fn menu_vec() -> (v: UVec2)
    ensures
        v.x == MENU_WIDTH,
        v.y == MENU_HEIGHT,
        v.x == IDEAL_WIDTH * MENU_GROWTH,
        v.y == IDEAL_HEIGHT * MENU_GROWTH,
{
    ideal_vec().scaled(MENU_GROWTH)
}

} // verus!
