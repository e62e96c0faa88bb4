//! The scene: a camera, bodies and lights, and the tracer over them.

pub mod camera;
pub mod laws;
pub mod light;
pub mod tracer;
pub mod visible;

pub use tracer::Scene;
