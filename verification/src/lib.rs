//! A small turn-based combat core: creatures with clamped health pools,
//! identity tags for correlating a creature with its presentation elements,
//! and the damage rules driving an attack round.

pub mod combat;
pub mod creature;
pub mod effects;
