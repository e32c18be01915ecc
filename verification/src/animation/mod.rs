//! Animation and texture managers: which state an animated entity is in,
//! and how the frames of its bodies advance.

pub mod animation_manager;
pub mod frames;
pub mod manager;
pub mod texture_manager;
pub mod planet_textures;
