//! Layout helpers.

pub mod container;
pub mod footer;
pub mod hero;
pub mod level;
pub mod media;
pub mod section;
pub mod tile;
