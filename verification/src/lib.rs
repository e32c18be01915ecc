//! Verified game logic of the Zenith arcade game: the state machine that drives
//! rooms and menus, the input drag machine, animation managers, charge counters
//! for the ship, trigger bookkeeping and the small decision rules of enemies.
//! Rendering, windowing and the ECS plumbing live in the application crate.

pub mod animation;
pub mod camera;
pub mod change;
pub mod consts;
pub mod debug;
pub mod enemy;
pub mod input;
pub mod layer;
pub mod math;
pub mod mirage;
pub mod physics;
pub mod ship;
pub mod state;
