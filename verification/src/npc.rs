pub mod misery;

use vstd::prelude::*;
use crate::common::{Direction, Rect};

verus! {

/// Bit of `NPC::cond` set while the NPC exists in the world.
pub const COND_ALIVE: u16 = 0x80;
/// Bit of `NPC::flags` set while the NPC stands on a floor.
pub const FLAG_HIT_BOTTOM_WALL: u32 = 0x08;
/// Bit of `NPC::npc_flags` that lets the NPC pass through map tiles.
pub const NPC_FLAG_IGNORE_SOLIDITY: u16 = 0x08;

/// A non-player character: position, velocity and target in sub-pixels (0x200 per
/// pixel), its script state (`action_num` and its counters), its animation frame and
/// the sprite rectangle drawn for it, and its condition and contact bits.
#[derive(Clone, Copy, Debug, PartialEq, Eq, Structural)]
pub struct NPC {
    pub id: u16,
    pub npc_type: u16,
    pub x: isize,
    pub y: isize,
    pub vel_x: isize,
    pub vel_y: isize,
    pub target_x: isize,
    pub target_y: isize,
    pub action_num: u16,
    pub action_counter: u16,
    pub action_counter2: u16,
    pub anim_num: u16,
    pub anim_counter: u16,
    pub event_num: u16,
    pub direction: Direction,
    pub cond: u16,
    pub flags: u32,
    pub npc_flags: u16,
    pub anim_rect: Rect,
}

/// Something an NPC's tick asks the game to do that lies outside the NPC itself.
#[derive(Clone, Copy, Debug, PartialEq, Eq, Structural)]
pub enum NpcAction {
    /// Play sound effect number `.0`.
    PlaySound(u8),
    /// Create a living NPC of type `npc_type` at (`x`, `y`).
    SpawnNpc { npc_type: u16, x: isize, y: isize },
    /// Mark the NPC with this id, if there is one, as no longer alive.
    Kill(u16),
}

/// The sprite rectangles of the NPCs in this library, indexed by animation frame.
pub struct NpcConstants {
    pub n066_misery_bubble: [Rect; 4],
    pub n067_misery_floating: [Rect; 16],
}

impl NpcConstants {
    /// Every floating-Misery frame reaches at least 16 pixels down the sprite sheet,
    /// and no frame reaches past 0x10000 pixels.
    pub open spec fn wf(&self) -> bool {
        forall|i: int|
            0 <= i < 16 ==> 16 <= #[trigger] self.n067_misery_floating@[i].bottom <= 0x10000
    }
}

/// Bound on a velocity, in sub-pixels per tick, under which one step of motion
/// cannot leave the range of a 32-bit `isize`.
pub open spec fn velocity_in_range(v: int) -> bool {
    -0x10_0000 <= v <= 0x10_0000
}

impl NPC {
    /// Position, target and velocity within the bounds under which a tick's arithmetic
    /// cannot overflow.
    pub open spec fn in_world(self) -> bool {
        &&& crate::player::position_in_range(self.x as int)
        &&& crate::player::position_in_range(self.y as int)
        &&& crate::player::position_in_range(self.target_x as int)
        &&& crate::player::position_in_range(self.target_y as int)
        &&& velocity_in_range(self.vel_x as int)
        &&& velocity_in_range(self.vel_y as int)
    }
}

} // verus!
