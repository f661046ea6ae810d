use vstd::prelude::*;

verus! {

/// A position in the game world, as read from game memory: each coordinate
/// is kept as the bit pattern of its IEEE-754 single-precision value.
#[derive(Debug, Clone, Copy, PartialEq, Eq, Structural)]
pub struct Vec3 {
    pub x: u32,
    pub y: u32,
    pub z: u32,
}

} // verus!
