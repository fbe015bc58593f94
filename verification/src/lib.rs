//! A software ray tracer over a deterministic fixed-point numeric model.
//!
//! Scenes of axis-aligned cubes and spheres are lit by point lights and
//! rendered with recursive shading (direct lighting, shadows, reflection,
//! refraction, emission and texturing). All geometry and shading runs on
//! Q31.32 fixed-point numbers (see `fixed`), so every pixel of a frame is a
//! mathematical function of the scene description, which the contracts in
//! this crate state and prove.

pub mod fixed;
pub mod vec3;
pub mod color;
pub mod texture;
pub mod material;
pub mod rayintersect;
pub mod sphere;
pub mod cube;
pub mod light;
pub mod camera;
pub mod framebuffer;
pub mod shading;
pub mod render;
