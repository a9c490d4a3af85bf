use vstd::prelude::*;

verus! {

/// An axis-aligned rectangle in pixels, as the sprite and hit-box tables store it.
#[derive(Clone, Copy, Debug, PartialEq, Eq, Structural)]
pub struct Rect {
    pub left: usize,
    pub top: usize,
    pub right: usize,
    pub bottom: usize,
}

impl Rect {
    pub fn new(left: usize, top: usize, right: usize, bottom: usize) -> (r: Rect)
        ensures
            r == (Rect { left, top, right, bottom }),
    {
        Rect { left, top, right, bottom }
    }
}

/// The direction an entity faces.
#[derive(Clone, Copy, Debug, PartialEq, Eq, Structural)]
pub enum Direction {
    Left,
    Up,
    Right,
    Bottom,
    FacingPlayer,
}

/// The bit of `KeyState` held while the left key is down.
pub const KEY_LEFT: u16 = 0x01;
/// The bit of `KeyState` held while the right key is down.
pub const KEY_RIGHT: u16 = 0x02;

/// The keys held down, one bit per key.
#[derive(Clone, Copy, Debug, PartialEq, Eq, Structural)]
pub struct KeyState(pub u16);

impl KeyState {
    pub open spec fn spec_left(self) -> bool {
        self.0 & KEY_LEFT != 0
    }

    pub open spec fn spec_right(self) -> bool {
        self.0 & KEY_RIGHT != 0
    }

    pub fn left(&self) -> (r: bool)
        ensures
            r == self.spec_left(),
    {
        self.0 & KEY_LEFT != 0
    }

    pub fn right(&self) -> (r: bool)
        ensures
            r == self.spec_right(),
    {
        self.0 & KEY_RIGHT != 0
    }
}

/// What `num_traits::clamp` computes: `lo` below the range, `hi` above it,
/// the input itself inside it.
pub open spec fn clamped(v: int, lo: int, hi: int) -> int {
    if v < lo {
        lo
    } else if v > hi {
        hi
    } else {
        v
    }
}

/// Calls `num_traits::clamp` on `isize`. Its source returns `min` when the input is
/// below `min`, `max` when it is above `max`, and the input otherwise; in debug builds
/// it asserts `min <= max`, which `requires` keeps.
#[verifier::external_body]
pub(crate) fn clamp_isize(input: isize, min: isize, max: isize) -> (r: isize)
    requires
        min <= max,
    ensures
        r == clamped(input as int, min as int, max as int),
{
    num_traits::clamp(input, min, max)
}

} // verus!
