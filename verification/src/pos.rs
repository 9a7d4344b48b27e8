//! Positions on the sky and on the ground.

pub mod precession;
