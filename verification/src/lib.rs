//! A 2×2×2 pocket cube: a verified sticker-permutation move engine and a
//! fixed-point isometric geometry pipeline (rotation, projection, backface
//! culling, depth ordering, viewport layout) for drawing two oriented views.

pub mod angles;
pub mod cube;
pub mod geom;
pub mod layout;
pub mod moves;
pub mod render;
pub mod scramble;
