//! A recursive ray tracer: vector and colour arithmetic, a pinhole camera,
//! ray-sphere and ray-triangle intersection, Phong shading, and a scene
//! tracer with shadow rays and bounded mirror reflection.
//!
//! The library is generic over its scalar ([`common::VertexFormat`]). Every
//! contract states the result as a term over the scalar's operations, so a
//! pixel's colour is a fixed function of the scene and the pixel.

pub mod common;
pub mod image;
pub mod ppm;
pub mod scene;
