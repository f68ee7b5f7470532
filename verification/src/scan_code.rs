//! PS/2 scan codes (set 1).

use vstd::prelude::*;

verus! {

pub const ESC: u16 = 0x01;
pub const NUM1: u16 = 0x02;
pub const NUM2: u16 = 0x03;
pub const NUM3: u16 = 0x04;
pub const NUM4: u16 = 0x05;
pub const NUM5: u16 = 0x06;
pub const NUM6: u16 = 0x07;
pub const NUM7: u16 = 0x08;
pub const NUM8: u16 = 0x09;
pub const NUM9: u16 = 0x0A;
pub const NUM0: u16 = 0x0B;
pub const A: u16 = 0x1E;
pub const B: u16 = 0x30;
pub const C: u16 = 0x2E;
pub const D: u16 = 0x20;
pub const E: u16 = 0x12;
pub const F: u16 = 0x21;
pub const G: u16 = 0x22;
pub const H: u16 = 0x23;
pub const I: u16 = 0x17;
pub const J: u16 = 0x24;
pub const K: u16 = 0x25;
pub const L: u16 = 0x26;
pub const M: u16 = 0x32;
pub const N: u16 = 0x31;
pub const O: u16 = 0x18;
pub const P: u16 = 0x19;
pub const Q: u16 = 0x10;
pub const R: u16 = 0x13;
pub const S: u16 = 0x1F;
pub const T: u16 = 0x14;
pub const U: u16 = 0x16;
pub const V: u16 = 0x2F;
pub const W: u16 = 0x11;
pub const X: u16 = 0x2D;
pub const Y: u16 = 0x15;
pub const Z: u16 = 0x2C;
pub const SPACE: u16 = 0x39;
pub const ENTER: u16 = 0x1C;
pub const TAB: u16 = 0x0F;
pub const BACKSPACE: u16 = 0x0E;
pub const LEFT_SHIFT: u16 = 0x2A;
pub const RIGHT_SHIFT: u16 = 0x36;
pub const LEFT_CTRL: u16 = 0x1D;
pub const LEFT_ALT: u16 = 0x38;
pub const CAPS_LOCK: u16 = 0x3A;
pub const F1: u16 = 0x3B;
pub const F2: u16 = 0x3C;
pub const F3: u16 = 0x3D;
pub const F4: u16 = 0x3E;
pub const F5: u16 = 0x3F;
pub const F6: u16 = 0x40;
pub const F7: u16 = 0x41;
pub const F8: u16 = 0x42;
pub const F9: u16 = 0x43;
pub const F10: u16 = 0x44;
pub const F11: u16 = 0x57;
pub const F12: u16 = 0x58;

} // verus!
