//! The arithmetic kernel: scalars, vectors, rays, colours.

pub mod color;
pub mod error;
pub mod ray;
pub mod scalar;
pub mod vector;

pub use color::Color;
pub use error::GeometryError;
pub use ray::{Intersection, Ray, Spacial};
pub use scalar::{max, VertexFormat};
pub use vector::Vec3;
