//! What spawned entities do on each frame.

pub mod mob_segment;
pub mod projectile;
