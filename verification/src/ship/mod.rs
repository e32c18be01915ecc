//! The ship: its stores of launches and fires, and the parts it is made of.

pub mod charges;
pub mod parts;
