//! Form controls.

pub mod checkbox;
pub mod control;
pub mod field;
pub mod file;
pub mod input;
pub mod radio;
pub mod select;
pub mod textarea;
