//! Physics decisions that do not depend on geometry: entity identities, bullet time,
//! patrols, responses to static collisions, and trigger collision records.

pub mod bullet_time;
pub mod entity;
pub mod patrol;
pub mod statics;
pub mod triggers;
