//! Single elements.

pub mod block;
pub mod box_element;
pub mod button;
pub mod content;
pub mod delete;
pub mod icon;
pub mod image;
pub mod notification;
pub mod progress;
pub mod table;
pub mod tag;
pub mod title;
