//! Deterministic 32.32 fixed-point arithmetic with CORDIC trigonometry,
//! 2-dimensional vectors and directions, and a Mersenne Twister generator.
pub mod fixed_point;
pub mod cordic;
pub mod basic;
pub mod rng;
pub mod vec2;
pub mod dir;

pub use fixed_point::Q64;
pub use cordic::{QCoordic, TrigError};
pub use basic::QBasic;
pub use rng::QRng;
pub use vec2::QVec2;
pub use dir::QDir;
