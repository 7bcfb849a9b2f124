//! Which fields of a file descriptor are valid.
use vstd::prelude::*;

verus! {

/// The class identifier is valid.
pub const FD_CLSID: u32 = 0x0001;

/// The icon size and position are valid.
pub const FD_SIZEPOINT: u32 = 0x0002;

/// The file attributes are valid.
pub const FD_ATTRIBUTES: u32 = 0x0004;

/// The creation time is valid.
pub const FD_CREATETIME: u32 = 0x0008;

/// The last access time is valid.
pub const FD_ACCESSTIME: u32 = 0x0010;

/// The last write time is valid.
pub const FD_WRITETIME: u32 = 0x0020;

/// The file size is valid.
pub const FD_FILESIZE: u32 = 0x0040;

/// Show progress during the transfer.
pub const FD_PROGRESSUI: u32 = 0x4000;

/// Treat the file as a shortcut.
pub const FD_LINKUI: u32 = 0x8000;

} // verus!
