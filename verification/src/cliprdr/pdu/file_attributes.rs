//! File attributes as Windows numbers them.
use vstd::prelude::*;

verus! {

/// Read-only file.
pub const FILE_ATTRIBUTE_READONLY: u32 = 0x0001;

/// Hidden file.
pub const FILE_ATTRIBUTE_HIDDEN: u32 = 0x0002;

/// System file.
pub const FILE_ATTRIBUTE_SYSTEM: u32 = 0x0004;

/// Directory.
pub const FILE_ATTRIBUTE_DIRECTORY: u32 = 0x0010;

/// File that was modified since the last backup.
pub const FILE_ATTRIBUTE_ARCHIVE: u32 = 0x0020;

/// File with no other attribute.
pub const FILE_ATTRIBUTE_NORMAL: u32 = 0x0080;

} // verus!
