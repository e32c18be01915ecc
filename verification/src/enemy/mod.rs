//! Enemies.

pub mod suicido;
