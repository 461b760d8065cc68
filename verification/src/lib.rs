//! A flocking simulation on fixed-point numbers: agents that steer by
//! alignment, cohesion and separation inside a wrap-around rectangle.

pub mod agent;
pub mod boid;
pub mod color;
pub mod flock;
pub mod keys;
pub mod math;
pub mod model;
pub mod random;
pub mod rect;
pub mod text;
pub mod update;
pub mod vector;
pub mod window;
