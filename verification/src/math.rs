//! Plain vector types used across the engine.

pub mod vec2;
pub mod vec3;
pub mod vec4;
