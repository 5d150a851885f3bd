//! Provisioning of a file-backed disk image, as decisions.
//!
//! A run allocates a backing file, formats it, mounts it, copies one file into
//! it and unmounts it again. Every function here decides and none performs:
//! the caller opens, writes, mounts and spawns, and reports each outcome back.

pub mod allocator;
pub mod errno;
pub mod formatter;
pub mod lifecycle;
pub mod mount;
pub mod transfer;
