//! Mouse button flags.

use vstd::prelude::*;

verus! {

pub const LEFT_BUTTON_DOWN: u16 = 0x0001;
pub const LEFT_BUTTON_UP: u16 = 0x0002;
pub const RIGHT_BUTTON_DOWN: u16 = 0x0004;
pub const RIGHT_BUTTON_UP: u16 = 0x0008;
pub const MIDDLE_BUTTON_DOWN: u16 = 0x0010;
pub const MIDDLE_BUTTON_UP: u16 = 0x0020;

/// Vertical wheel; the rotation goes in `button_data`.
pub const WHEEL: u16 = 0x0400;

/// Horizontal wheel; the rotation goes in `button_data`.
pub const HWHEEL: u16 = 0x0800;

} // verus!
