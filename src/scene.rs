//! The virtual scene: its objects and materials.

pub mod hittable;
pub mod material;
