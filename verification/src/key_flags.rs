//! Key flags for keyboard events.

use vstd::prelude::*;

verus! {

/// The key goes down (make code).
pub const KEY_MAKE: u16 = 0x0000;

/// The key goes up (break code).
pub const BREAK: u16 = 0x0001;

/// The scan code carries the `E0` prefix (extended key).
pub const E0: u16 = 0x0002;

/// The scan code carries the `E1` prefix.
pub const E1: u16 = 0x0004;

} // verus!
