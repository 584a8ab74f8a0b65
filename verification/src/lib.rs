//! Verified core of a small HDR scene renderer: mesh index generation,
//! vertex layouts, draw planning and surface/input state.

pub mod buffers;
pub mod draw;
pub mod input;
pub mod layout;
pub mod mesh;
pub mod shaders;
pub mod shading;
pub mod surface;
pub mod viewer;
