//! A flocking ("boids") engine over fixed-point numbers.

pub mod boid;
pub mod bounds;
pub mod color;
pub mod fixed;
pub mod laws;
pub mod mesh;
pub mod rules;
pub mod sim;
pub mod vector;
