//! Rendering bridge between an immediate-mode GUI and a GPU surface.
//!
//! Each frame the GUI hands over a texture delta and an ordered list of clipped
//! mesh batches. This crate keeps the texture table in step with the delta and
//! decides, batch by batch, which draw calls are issued with which scissor
//! rectangle and texture binding. It touches no GPU itself: every decision comes
//! back as a plain value that the host carries out.
//!
//! Coordinates in point space and the pixels-per-point scale are fixed-point
//! numbers counted in steps of 1/256 (see [`scissor::SUBDIVISIONS`]).

pub mod scissor;
pub mod scratch;
pub mod texture;
pub mod table;
pub mod draw;
pub mod frame;
pub mod laws;
