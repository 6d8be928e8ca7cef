//! Configuration-surface library for a USB Video Class (UVC) gadget function.
//!
//! A UVC function is described to the kernel through a tree of directories,
//! property files and symlinks under configfs.  This crate builds that tree as
//! a value: a sequence of filesystem operations with a proved shape, an
//! ordered teardown plan that undoes it, and the pure selection steps of the
//! sysfs walk that discovers the `/dev/videoN` node once the gadget is bound.
//! A thin unverified runtime applies the operations to the real filesystem.

pub mod plan;
pub mod resolver;
pub mod teardown;
pub mod text;
pub mod uvc;
