//! Game rules of a 2D arcade shooter, kept apart from the engine that draws and
//! simulates it: level progression, collision damage, projectile despawning and
//! the character selection screen's input handling.

pub mod ability;
pub mod behavior;
pub mod character;
pub mod clock;
pub mod collision;
pub mod input;
pub mod level;
pub mod player;
pub mod spawnable;
pub mod states;
pub mod ui;
