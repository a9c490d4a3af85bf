use vstd::prelude::*;
use crate::common::Rect;

verus! {

/// Set when the player touches a wall on the left.
pub const FLAG_X01: u32 = 0x01;
/// Set when the player touches a ceiling (flat or sloped).
pub const FLAG_X02: u32 = 0x02;
/// Set when the player touches a wall on the right.
pub const FLAG_X04: u32 = 0x04;
/// Set when the player stands on a floor (flat or sloped).
pub const FLAG_X08: u32 = 0x08;
/// Set when the player stands on a floor slope that rises to the left.
pub const FLAG_X10: u32 = 0x10;
/// Set when the player stands on a floor slope that rises to the right.
pub const FLAG_X20: u32 = 0x20;
/// Set while the player is inside a water tile.
pub const FLAG_UNDERWATER: u32 = 0x100;
/// Set when the player's tile neighbourhood holds a floor slope of kind E.
pub const FLAG_X10000: u32 = 0x10000;
/// Set when the player's tile neighbourhood holds a floor slope of kind F.
pub const FLAG_X20000: u32 = 0x20000;
/// Set when the player's tile neighbourhood holds a floor slope of kind G.
pub const FLAG_X40000: u32 = 0x40000;
/// Set when the player's tile neighbourhood holds a floor slope of kind H.
pub const FLAG_X80000: u32 = 0x80000;

/// Contact flags of the player, one bit per kind of contact.
#[derive(Clone, Copy, Debug, PartialEq, Eq, Structural)]
pub struct Flags(pub u32);

impl Flags {
    /// Sets the bits of `mask`, keeping the others.
    pub fn set(&mut self, mask: u32)
        ensures
            final(self).0 == old(self).0 | mask,
    {
        self.0 = self.0 | mask;
    }
}

/// The player's position and velocity in sub-pixels (0x200 per pixel), its hit box
/// in sub-pixels around its position, and its contact flags.
#[derive(Clone, Copy, Debug, PartialEq, Eq, Structural)]
pub struct Player {
    pub x: isize,
    pub y: isize,
    pub xm: isize,
    pub ym: isize,
    pub hit: Rect,
    pub flags: Flags,
}

/// The part of the player that collisions change, in mathematical integers.
pub struct Body {
    pub x: int,
    pub y: int,
    pub xm: int,
    pub ym: int,
    pub flags: u32,
}

/// Bound on a coordinate in sub-pixels: 0x8000 tiles on either side of the origin
/// keep every collision formula inside the range of a 32-bit `isize`.
pub open spec fn position_in_range(v: int) -> bool {
    -0x1000_0000 <= v <= 0x1000_0000
}

/// Bound on a tile index for which the collision formulas stay inside a 32-bit `isize`.
pub open spec fn tile_in_range(t: int) -> bool {
    -0x4000 <= t <= 0x4000
}

/// Bound on each extent of the hit box, in sub-pixels.
pub open spec fn extent_in_range(v: int) -> bool {
    v <= 0x10_0000
}

impl Player {
    pub open spec fn body(self) -> Body {
        Body { x: self.x as int, y: self.y as int, xm: self.xm as int, ym: self.ym as int, flags: self.flags.0 }
    }

    /// Position and hit box within the bounds under which collision arithmetic cannot overflow.
    pub open spec fn in_world(self) -> bool {
        &&& position_in_range(self.x as int)
        &&& position_in_range(self.y as int)
        &&& extent_in_range(self.hit.top as int)
        &&& extent_in_range(self.hit.bottom as int)
        &&& extent_in_range(self.hit.right as int)
    }
}

} // verus!
