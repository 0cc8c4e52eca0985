//! Core of an animated 4-D fractal visualization: a time-sliced escape-time
//! fractal swept through a fourth coordinate, rendered as a stack of
//! translucent slices inside a bounding volume, under a free-fly camera and a
//! music-synchronized animation clock.
//!
//! All scalar arithmetic runs on the fixed-point type [`fixed::Fx`], so that
//! every geometric and timing computation has an exact, verified meaning.

pub mod fixed;
pub mod trig;
pub mod cube;
pub mod vec3;
pub mod mandel;
pub mod mandelwow;
pub mod mat4;
pub mod camera;
pub mod timer;
pub mod scene;
pub mod bounding_box;
pub mod shaded_cube;
pub mod support;

pub use fixed::Fx;
pub use fixed::FX_SCALE;
