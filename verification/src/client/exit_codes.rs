//! The exit codes of the program.
use vstd::prelude::*;

verus! {

/// Success.
pub const SUCCESS: u8 = 0;

/// The connection failed.
pub const CONNECTION_ERROR: u8 = 1;

/// The credentials were not accepted.
pub const AUTH_ERROR: u8 = 2;

/// The server said something unexpected.
pub const PROTOCOL_ERROR: u8 = 3;

} // verus!
