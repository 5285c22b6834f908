//! Face-culling mesh builder for a dense grid of unit cubes, with the
//! discrete parts of the camera, viewport and uniform-block handling.

pub mod geometry;
pub mod visibility;
pub mod builder;
pub mod camera;
pub mod frame;
pub mod layout;
pub mod cube;
pub mod bytes;
pub mod uniform;
