use vstd::prelude::*;
use crate::common::Direction;

verus! {

/// Bit of `Caret::cond` set while the effect is alive.
pub const CARET_ALIVE: u16 = 0x80;

/// The kinds of short visual effects.
#[derive(Clone, Copy, Debug, PartialEq, Eq, Structural)]
pub enum CaretType {
    NoEffect,
    Bubble,
    ProjectileDissipation,
    Shoot,
    SnakeAfterimage,
    Zzz,
    SnakeAfterimage2,
    Exhaust,
    DrownedQuote,
    QuestionMark,
    LevelUp,
    HurtParticles,
    Explosion,
    LittleParticles,
    Unknown,
    SmallProjectileDissipation,
    Empty,
    PushJumpKey,
}

/// A short visual effect at a position in sub-pixels, alive while `cond` holds
/// `CARET_ALIVE`.
#[derive(Clone, Copy, Debug, PartialEq, Eq, Structural)]
pub struct Caret {
    pub ctype: CaretType,
    pub x: isize,
    pub y: isize,
    pub direct: Direction,
    pub cond: u16,
}

impl Caret {
    pub open spec fn spec_is_dead(self) -> bool {
        self.cond & CARET_ALIVE == 0
    }

    /// A living effect of kind `ctype` at (`x`, `y`) facing `direct`.
    pub fn new(x: isize, y: isize, ctype: CaretType, direct: Direction) -> (c: Caret)
        ensures
            c == (Caret { ctype, x, y, direct, cond: CARET_ALIVE }),
            !c.spec_is_dead(),
    {
        assert(0x80u16 & 0x80u16 == 0x80u16) by (bit_vector);
        Caret { ctype, x, y, direct, cond: CARET_ALIVE }
    }

    /// The effect has ended.
    pub fn is_dead(&self) -> (r: bool)
        ensures
            r == self.spec_is_dead(),
    {
        self.cond & CARET_ALIVE == 0
    }
}

} // verus!
