//! Mouse movement flags.

use vstd::prelude::*;

verus! {

/// `last_x` / `last_y` are offsets from the current position.
pub const MOVE_RELATIVE: u16 = 0x0000;

/// `last_x` / `last_y` are absolute coordinates in 0..=65535.
pub const MOVE_ABSOLUTE: u16 = 0x0001;

/// Absolute coordinates span the whole virtual desktop.
pub const VIRTUAL_DESKTOP: u16 = 0x0002;

} // verus!
