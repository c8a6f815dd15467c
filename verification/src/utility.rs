//! Small helpers shared by the whole engine.

pub mod grid;
pub mod vector_util;
