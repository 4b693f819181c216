//! Converts a scene description (scenes, nodes, meshes with vertex attributes
//! and triangle indices) into an ordered sequence of symbol-based commands that
//! rebuild each mesh in a scripting runtime's mesh object model.
//!
//! Floating-point vertex data is carried as raw 32-bit patterns: the pipeline
//! never computes with the values, it only moves them into command arguments.

pub mod attribute;
pub mod command;
pub mod laws;
pub mod walker;
