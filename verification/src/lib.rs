//! Verified core of a loader that turns a Windows executable into a loadable
//! module and locates the start-up routines inside the loaded image.

pub mod patch;
pub mod find;
pub mod offsets;
pub mod structs;
pub mod slop;
