//! Objects that can be placed in the game world.

pub mod object;
