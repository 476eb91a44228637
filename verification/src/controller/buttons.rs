use vstd::prelude::*;

verus! {

/// Bit of the A button in the controller's button byte.
pub const A: u8 = 0x01;
/// Bit of the B button.
pub const B: u8 = 0x02;
/// Bit of the Select button.
pub const SELECT: u8 = 0x04;
/// Bit of the Start button.
pub const START: u8 = 0x08;
/// Bit of D-pad up.
pub const UP: u8 = 0x10;
/// Bit of D-pad down.
pub const DOWN: u8 = 0x20;
/// Bit of D-pad left.
pub const LEFT: u8 = 0x40;
/// Bit of D-pad right.
pub const RIGHT: u8 = 0x80;

} // verus!
