//! The checkerboard selection rule.
//!
//! A checker texture scales the hit point, floors each coordinate to
//! a lattice cell, and colours the cell by the parity of the
//! coordinate sum. The scaling and flooring are floating-point and
//! stay with the texture evaluation; the parity decision is made
//! here.

use vstd::prelude::*;

verus! {

/// True on the cells that use the even sub-texture: those whose
/// lattice coordinates sum to an even number.
pub fn checker_is_even(x: i32, y: i32, z: i32) -> (r: bool)
    requires
        i32::MIN <= x + y <= i32::MAX,
        i32::MIN <= x + y + z <= i32::MAX,
    ensures
        r == ((x + y + z) % 2 == 0),
{
    (x + y + z) % 2 == 0
}

} // verus!
