//! Composite components.

pub mod breadcrumb;
pub mod card;
pub mod dropdown;
pub mod menu;
pub mod message;
pub mod modal;
pub mod navbar;
pub mod pagination;
pub mod panel;
pub mod tabs;
