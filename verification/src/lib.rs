//! Widgets of a small desktop and the pieces of a kernel that drive it:
//! painting a tree of widgets into drawing operations, turning a bitmap into
//! a mouse cursor, probing the devices listed in a device tree, and turning
//! input events into actions.
pub mod draw;
pub mod geometry;
pub mod gui;
pub mod cursor;
pub mod dtb;
pub mod input;
pub mod drivers;
