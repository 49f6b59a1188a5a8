//! A minimal 2D drawing layer over a GPU graphics backend.
//!
//! The library owns the drawing logic: composing model matrices for the two
//! primitives (filled rectangles and textured images), computing the
//! orthographic pixel-to-clip-space projection, selecting a shader variant
//! from the backend's reported capabilities, validating texture uploads, and
//! recording one frame's worth of draw commands. The backend itself (buffer
//! allocation, shader compilation, draw execution, presentation) is an
//! external collaborator: a thin adapter hands it the recorded commands.

pub mod command;
pub mod device;
pub mod drawer;
pub mod error;
pub mod geometry;
pub mod matrix;
pub mod projection;
pub mod shader;
pub mod texture;
