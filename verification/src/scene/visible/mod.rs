//! Bodies: a shape that a ray can meet, and the material it is made of.

pub mod body;
pub mod material;
pub mod mesh;
pub mod sphere;

pub use body::{Body, Intersectable, Shape, Visible};
