use vstd::prelude::*;
use crate::common::{KeyState, Rect, clamped, clamp_isize};
use crate::game_state::GameState;
use crate::map::{TileMap, MAP_SIDE_LIMIT};
use crate::player::{Body, Player, tile_in_range, FLAG_X01, FLAG_X02, FLAG_X04, FLAG_X08, FLAG_X10, FLAG_X20, FLAG_UNDERWATER, FLAG_X10000, FLAG_X20000, FLAG_X40000, FLAG_X80000};

verus! {

/// Sub-pixel coordinate of the centre of tile `t` along one axis (16 pixels per tile).
pub open spec fn tile_centre(t: int) -> int {
    t * 0x10 * 0x200
}

/// Sub-pixel coordinate `pixels` pixels away from the centre of tile `t`.
pub open spec fn tile_edge(t: int, pixels: int) -> int {
    (t * 0x10 + pixels) * 0x200
}


/// `v / d` rounded toward zero, as integer division does on `isize` (for `d > 0`).
pub open spec fn div_toward_zero(v: int, d: int) -> int {
    if v >= 0 {
        v / d
    } else {
        -((-v) / d)
    }
}

/// The tile that holds sub-pixel coordinate `v`, computed as the game does:
/// divided by 16 and then by 0x200, each rounded toward zero.
pub open spec fn tile_of(v: int) -> int {
    div_toward_zero(div_toward_zero(v, 0x10), 0x200)
}

/// Tile attributes 0x50..=0x57 are dry slopes, 0x70..=0x77 the same slopes under water.
pub open spec fn is_wet_slope(attrib: u8) -> bool {
    0x70 <= attrib <= 0x77
}

/// Height in sub-pixels of a slope through tile (`tx`, `ty`) at horizontal position `x`:
/// it moves half a sub-pixel per sub-pixel, up to the right when `rising` is false
/// (y grows downward), offset by `shift` from the tile's centre.
pub open spec fn slope_line(x: int, tx: int, ty: int, rising: bool, shift: int) -> int {
    let h = div_toward_zero(x - tile_centre(tx), 2);
    tile_centre(ty) + (if rising { h } else { -h }) + shift
}

/// Among the slope attributes, bit 0x20 marks exactly the ones under water.
proof fn lemma_wet_slope_bit(attrib: u8)
    ensures
        (0x50 <= attrib <= 0x57 || 0x70 <= attrib <= 0x77) ==> ((attrib & 0x20 != 0) <==> 0x70 <= attrib <= 0x77),
{
    assert((0x50 <= attrib <= 0x57 || 0x70 <= attrib <= 0x77) ==> ((attrib & 0x20 != 0) <==> 0x70 <= attrib <= 0x77)) by (bit_vector);
}

impl Body {
    /// The player's left side is inside the right half of the block, level with it.
    pub open spec fn touches_left_wall(self, hit: Rect, tx: int, ty: int) -> bool {
        &&& self.y - hit.top < tile_edge(ty, 4)
        &&& self.y + hit.bottom > tile_edge(ty, -4)
        &&& self.x - hit.right < tile_edge(tx, 8)
        &&& self.x - hit.right > tile_centre(tx)
    }

    /// The player's right side is inside the left half of the block, level with it.
    pub open spec fn touches_right_wall(self, hit: Rect, tx: int, ty: int) -> bool {
        &&& self.y - hit.top < tile_edge(ty, 4)
        &&& self.y + hit.bottom > tile_edge(ty, -4)
        &&& self.x + hit.right > tile_edge(tx, -8)
        &&& self.x + hit.right < tile_centre(tx)
    }

    /// The player's head is inside the lower half of the block, under it.
    pub open spec fn touches_ceiling(self, hit: Rect, tx: int, ty: int) -> bool {
        &&& self.x - hit.right < tile_edge(tx, 5)
        &&& self.x + hit.right > tile_edge(tx, -5)
        &&& self.y - hit.top < tile_edge(ty, 8)
        &&& self.y - hit.top > tile_centre(ty)
    }

    /// The player's feet are inside the upper half of the block, over it.
    pub open spec fn touches_floor(self, hit: Rect, tx: int, ty: int) -> bool {
        &&& self.x - hit.right < tile_edge(tx, 5)
        &&& self.x + hit.right > tile_edge(tx, -5)
        &&& self.y + hit.bottom > tile_edge(ty, -8)
        &&& self.y + hit.bottom < tile_centre(ty)
    }

    /// A wall on the left puts the player's left side on the block's right edge,
    /// caps the leftward speed at 0x180 and stops it unless left is held.
    pub open spec fn off_left_wall(self, hit: Rect, tx: int, ty: int, left_held: bool) -> Body {
        if self.touches_left_wall(hit, tx, ty) {
            let xm = if self.xm < -0x180 { -0x180 } else { self.xm };
            Body {
                x: tile_edge(tx, 8) + hit.right,
                xm: if !left_held && xm < 0 { 0 } else { xm },
                flags: self.flags | FLAG_X01,
                ..self
            }
        } else {
            self
        }
    }

    /// A wall on the right puts the player's right side on the block's left edge,
    /// caps the rightward speed at 0x180 and stops it unless right is held.
    pub open spec fn off_right_wall(self, hit: Rect, tx: int, ty: int, right_held: bool) -> Body {
        if self.touches_right_wall(hit, tx, ty) {
            let xm = if self.xm > 0x180 { 0x180 } else { self.xm };
            Body {
                x: tile_edge(tx, -8) - hit.right,
                xm: if !right_held && xm > 0 { 0 } else { xm },
                flags: self.flags | FLAG_X04,
                ..self
            }
        } else {
            self
        }
    }

    /// A ceiling puts the player's head on the block's lower edge and stops upward motion.
    pub open spec fn off_ceiling(self, hit: Rect, tx: int, ty: int) -> Body {
        if self.touches_ceiling(hit, tx, ty) {
            Body {
                y: tile_edge(ty, 8) + hit.top,
                ym: if self.ym < 0 { 0 } else { self.ym },
                flags: self.flags | FLAG_X02,
                ..self
            }
        } else {
            self
        }
    }

    /// A floor puts the player's feet on the block's upper edge and stops downward motion.
    pub open spec fn off_floor(self, hit: Rect, tx: int, ty: int) -> Body {
        if self.touches_floor(hit, tx, ty) {
            Body {
                y: tile_edge(ty, -8) - hit.bottom,
                ym: if self.ym > 0 { 0 } else { self.ym },
                flags: self.flags | FLAG_X08,
                ..self
            }
        } else {
            self
        }
    }

    /// The player's centre is strictly between the tile's left and right edges.
    pub open spec fn within_columns(self, tx: int) -> bool {
        self.x < tile_edge(tx, 8) && self.x > tile_edge(tx, -8)
    }

    /// A sloped ceiling: when the head is above the slope line and the feet are below
    /// the tile's top, the head is put on the line and upward motion stops.
    pub open spec fn off_slope_ceiling(self, hit: Rect, tx: int, ty: int, rising: bool, shift: int) -> Body {
        let line = slope_line(self.x, tx, ty, rising, shift);
        if self.within_columns(tx) && self.y - hit.top < line && self.y + hit.bottom > tile_edge(ty, -8) {
            Body {
                y: line + hit.top,
                ym: if self.ym < 0 { 0 } else { self.ym },
                flags: self.flags | FLAG_X02,
                ..self
            }
        } else {
            self
        }
    }

    /// A sloped floor: `marker` is set in any case; when the feet are below the slope
    /// line and the head is above the tile's bottom, the feet are put on the line,
    /// downward motion stops, and `side` and the floor flag are set.
    pub open spec fn off_slope_floor(
        self,
        hit: Rect,
        tx: int,
        ty: int,
        rising: bool,
        shift: int,
        marker: u32,
        side: u32,
    ) -> Body {
        let b = Body { flags: self.flags | marker, ..self };
        let line = slope_line(b.x, tx, ty, rising, shift);
        if b.within_columns(tx) && b.y + hit.bottom > line && b.y - hit.top < tile_edge(ty, 8) {
            Body {
                y: line - hit.bottom,
                ym: if b.ym > 0 { 0 } else { b.ym },
                flags: b.flags | side | FLAG_X08,
                ..b
            }
        } else {
            b
        }
    }

    /// Slope A: a ceiling from the tile's bottom-left corner up to the middle of its right side.
    pub open spec fn after_triangle_a(self, hit: Rect, tx: int, ty: int) -> Body {
        self.off_slope_ceiling(hit, tx, ty, false, 0x800)
    }

    /// Slope B: a ceiling from the middle of the tile's left side up to its top-right corner.
    pub open spec fn after_triangle_b(self, hit: Rect, tx: int, ty: int) -> Body {
        self.off_slope_ceiling(hit, tx, ty, false, -0x800)
    }

    /// Slope C: a ceiling from the tile's top-left corner down to the middle of its right side.
    pub open spec fn after_triangle_c(self, hit: Rect, tx: int, ty: int) -> Body {
        self.off_slope_ceiling(hit, tx, ty, true, -0x800)
    }

    /// Slope D: a ceiling from the middle of the tile's left side down to its bottom-right corner.
    pub open spec fn after_triangle_d(self, hit: Rect, tx: int, ty: int) -> Body {
        self.off_slope_ceiling(hit, tx, ty, true, 0x800)
    }

    /// Slope E: a floor from the tile's top-left corner down to the middle of its right side.
    pub open spec fn after_triangle_e(self, hit: Rect, tx: int, ty: int) -> Body {
        self.off_slope_floor(hit, tx, ty, true, -0x800, FLAG_X10000, FLAG_X20)
    }

    /// Slope F: a floor from the middle of the tile's left side down to its bottom-right corner.
    pub open spec fn after_triangle_f(self, hit: Rect, tx: int, ty: int) -> Body {
        self.off_slope_floor(hit, tx, ty, true, 0x800, FLAG_X20000, FLAG_X20)
    }

    /// Slope G: a floor from the tile's bottom-left corner up to the middle of its right side.
    pub open spec fn after_triangle_g(self, hit: Rect, tx: int, ty: int) -> Body {
        self.off_slope_floor(hit, tx, ty, false, 0x800, FLAG_X40000, FLAG_X10)
    }

    /// Slope H: a floor from the middle of the tile's left side up to its top-right corner.
    pub open spec fn after_triangle_h(self, hit: Rect, tx: int, ty: int) -> Body {
        self.off_slope_floor(hit, tx, ty, false, -0x800, FLAG_X80000, FLAG_X10)
    }

    /// The player overlaps the upper part of a water tile.
    pub open spec fn touches_water(self, hit: Rect, tx: int, ty: int) -> bool {
        &&& self.x - hit.right < tile_edge(tx, 5)
        &&& self.x + hit.right > tile_edge(tx, -5)
        &&& self.y - hit.top < tile_edge(ty, 5)
        &&& self.y + hit.bottom > tile_centre(ty)
    }

    /// Water only sets the underwater flag.
    pub open spec fn after_water(self, hit: Rect, tx: int, ty: int) -> Body {
        if self.touches_water(hit, tx, ty) {
            Body { flags: self.flags | FLAG_UNDERWATER, ..self }
        } else {
            self
        }
    }

    /// A solid block: left wall, right wall, ceiling and floor, in that order.
    pub open spec fn after_block(self, hit: Rect, tx: int, ty: int, keys: KeyState) -> Body {
        self.off_left_wall(hit, tx, ty, keys.spec_left()).off_right_wall(
            hit,
            tx,
            ty,
            keys.spec_right(),
        ).off_ceiling(hit, tx, ty).off_floor(hit, tx, ty)
    }

    /// What one tile does to the player, by its attribute: water (0x02, 0x60), solid
    /// block (0x05, 0x41, 0x43, 0x46), the eight slopes A..H (0x50..=0x57, and
    /// 0x70..=0x77 for the same slopes under water, which also count as water), water
    /// that is also solid (0x61); any other attribute does nothing.
    pub open spec fn after_tile(self, hit: Rect, attrib: u8, tx: int, ty: int, keys: KeyState) -> Body {
        let slope = if attrib == 0x50 || attrib == 0x70 {
            self.after_triangle_a(hit, tx, ty)
        } else if attrib == 0x51 || attrib == 0x71 {
            self.after_triangle_b(hit, tx, ty)
        } else if attrib == 0x52 || attrib == 0x72 {
            self.after_triangle_c(hit, tx, ty)
        } else if attrib == 0x53 || attrib == 0x73 {
            self.after_triangle_d(hit, tx, ty)
        } else if attrib == 0x54 || attrib == 0x74 {
            self.after_triangle_e(hit, tx, ty)
        } else if attrib == 0x55 || attrib == 0x75 {
            self.after_triangle_f(hit, tx, ty)
        } else if attrib == 0x56 || attrib == 0x76 {
            self.after_triangle_g(hit, tx, ty)
        } else {
            self.after_triangle_h(hit, tx, ty)
        };
        if attrib == 0x02 || attrib == 0x60 {
            self.after_water(hit, tx, ty)
        } else if attrib == 0x05 || attrib == 0x41 || attrib == 0x43 || attrib == 0x46 {
            self.after_block(hit, tx, ty, keys)
        } else if 0x50 <= attrib <= 0x57 {
            slope
        } else if is_wet_slope(attrib) {
            slope.after_water(hit, tx, ty)
        } else if attrib == 0x61 {
            self.after_water(hit, tx, ty).after_block(hit, tx, ty, keys)
        } else {
            self
        }
    }

    /// One pass of map collisions: the player's tile, clamped to the map, and its
    /// neighbours to the right, below, and below-right, each judged in that order.
    pub open spec fn after_map_collisions(self, hit: Rect, map: &TileMap, keys: KeyState) -> Body {
        let tx = clamped(tile_of(self.x), 0, map.width as int);
        let ty = clamped(tile_of(self.y), 0, map.height as int);
        self.after_tile(hit, map.attribute(tx, ty), tx, ty, keys).after_tile(
            hit,
            map.attribute(tx + 1, ty),
            tx + 1,
            ty,
            keys,
        ).after_tile(hit, map.attribute(tx, ty + 1), tx, ty + 1, keys).after_tile(
            hit,
            map.attribute(tx + 1, ty + 1),
            tx + 1,
            ty + 1,
            keys,
        )
    }
}

impl Player {
    /// Resolves a collision with the solid block at tile (`x`, `y`).
    pub fn judge_hit_block(&mut self, x: isize, y: isize, state: &GameState)
        requires
            old(self).in_world(),
            tile_in_range(x as int),
            tile_in_range(y as int),
        ensures
            final(self).body() == old(self).body().after_block(old(self).hit, x as int, y as int, state.key_state),
            final(self).hit == old(self).hit,
            final(self).in_world(),
    {
        let key_state = state.key_state;
        let ghost b0 = self.body();
        let top = self.hit.top as isize;
        let bottom = self.hit.bottom as isize;
        let right = self.hit.right as isize;

        // left wall
        if (self.y - top) < (y * 0x10 + 4) * 0x200 && self.y + bottom > (y * 0x10 - 4) * 0x200
            && (self.x - right) < (x * 0x10 + 8) * 0x200 && (self.x - right) > x * 0x10 * 0x200 {
            self.x = ((x * 0x10 + 8) * 0x200) + right;
            if self.xm < -0x180 {
                self.xm = -0x180;
            }
            if !key_state.left() && self.xm < 0 {
                self.xm = 0;
            }
            self.flags.set(FLAG_X01);
        }
        let ghost b1 = self.body();
        assert(b1 == b0.off_left_wall(self.hit, x as int, y as int, key_state.spec_left()));

        // right wall
        if (self.y - top) < (y * 0x10 + 4) * 0x200 && self.y + bottom > (y * 0x10 - 4) * 0x200
            && (self.x + right) > (x * 0x10 - 8) * 0x200 && (self.x + right) < x * 0x10 * 0x200 {
            self.x = ((x * 0x10 - 8) * 0x200) - right;
            if self.xm > 0x180 {
                self.xm = 0x180;
            }
            if !key_state.right() && self.xm > 0 {
                self.xm = 0;
            }
            self.flags.set(FLAG_X04);
        }
        let ghost b2 = self.body();
        assert(b2 == b1.off_right_wall(self.hit, x as int, y as int, key_state.spec_right()));

        // ceiling
        if (self.x - right) < (x * 0x10 + 5) * 0x200 && (self.x + right) > (x * 0x10 - 5) * 0x200
            && (self.y - top) < (y * 0x10 + 8) * 0x200 && (self.y - top) > y * 0x10 * 0x200 {
            self.y = ((y * 0x10 + 8) * 0x200) + top;
            if self.ym < 0 {
                self.ym = 0;
            }
            self.flags.set(FLAG_X02);
        }
        let ghost b3 = self.body();
        assert(b3 == b2.off_ceiling(self.hit, x as int, y as int));

        // floor
        if ((self.x - right) < (x * 0x10 + 5) * 0x200) && ((self.x + right) > (x * 0x10 - 5)
            * 0x200) && ((self.y + bottom) > (y * 0x10 - 8) * 0x200) && ((self.y + bottom) < y
            * 0x10 * 0x200) {
            self.y = ((y * 0x10 - 8) * 0x200) - bottom;
            if self.ym > 0 {
                self.ym = 0;
            }
            self.flags.set(FLAG_X08);
        }
    }
    /// Resolves a sloped ceiling at tile (`x`, `y`); see `Body::off_slope_ceiling`.
    fn judge_slope_ceiling(&mut self, x: isize, y: isize, rising: bool, shift: isize)
        requires
            old(self).in_world(),
            tile_in_range(x as int),
            tile_in_range(y as int),
            shift == 0x800 || shift == -0x800,
        ensures
            final(self).body() == old(self).body().off_slope_ceiling(
                old(self).hit,
                x as int,
                y as int,
                rising,
                shift as int,
            ),
            final(self).hit == old(self).hit,
            final(self).in_world(),
    {
        let top = self.hit.top as isize;
        let bottom = self.hit.bottom as isize;
        let half = (self.x - x * 0x10 * 0x200) / 2;
        let line = if rising {
            (y * 0x10 * 0x200) + half + shift
        } else {
            (y * 0x10 * 0x200) - half + shift
        };
        if self.x < (x * 0x10 + 8) * 0x200 && self.x > (x * 0x10 - 8) * 0x200 && (self.y - top)
            < line && (self.y + bottom) > (y * 0x10 - 8) * 0x200 {
            self.y = line + top;
            if self.ym < 0 {
                self.ym = 0;
            }
            self.flags.set(FLAG_X02);
        }
    }

    /// Resolves a sloped floor at tile (`x`, `y`); see `Body::off_slope_floor`.
    fn judge_slope_floor(
        &mut self,
        x: isize,
        y: isize,
        rising: bool,
        shift: isize,
        marker: u32,
        side: u32,
    )
        requires
            old(self).in_world(),
            tile_in_range(x as int),
            tile_in_range(y as int),
            shift == 0x800 || shift == -0x800,
        ensures
            final(self).body() == old(self).body().off_slope_floor(
                old(self).hit,
                x as int,
                y as int,
                rising,
                shift as int,
                marker,
                side,
            ),
            final(self).hit == old(self).hit,
            final(self).in_world(),
    {
        self.flags.set(marker);
        let top = self.hit.top as isize;
        let bottom = self.hit.bottom as isize;
        let half = (self.x - x * 0x10 * 0x200) / 2;
        let line = if rising {
            (y * 0x10 * 0x200) + half + shift
        } else {
            (y * 0x10 * 0x200) - half + shift
        };
        if (self.x < (x * 0x10 + 8) * 0x200) && (self.x > (x * 0x10 - 8) * 0x200) && (self.y
            + bottom) > line && (self.y - top) < (y * 0x10 + 8) * 0x200 {
            self.y = line - bottom;
            if self.ym > 0 {
                self.ym = 0;
            }
            self.flags.set(side);
            self.flags.set(FLAG_X08);
        }
    }

    /// Resolves slope A (ceiling) at tile (`x`, `y`).
    pub fn judge_hit_triangle_a(&mut self, x: isize, y: isize)
        requires
            old(self).in_world(),
            tile_in_range(x as int),
            tile_in_range(y as int),
        ensures
            final(self).body() == old(self).body().after_triangle_a(old(self).hit, x as int, y as int),
            final(self).hit == old(self).hit,
            final(self).in_world(),
    {
        self.judge_slope_ceiling(x, y, false, 0x800);
    }

    /// Resolves slope B (ceiling) at tile (`x`, `y`).
    pub fn judge_hit_triangle_b(&mut self, x: isize, y: isize)
        requires
            old(self).in_world(),
            tile_in_range(x as int),
            tile_in_range(y as int),
        ensures
            final(self).body() == old(self).body().after_triangle_b(old(self).hit, x as int, y as int),
            final(self).hit == old(self).hit,
            final(self).in_world(),
    {
        self.judge_slope_ceiling(x, y, false, -0x800);
    }

    /// Resolves slope C (ceiling) at tile (`x`, `y`).
    pub fn judge_hit_triangle_c(&mut self, x: isize, y: isize)
        requires
            old(self).in_world(),
            tile_in_range(x as int),
            tile_in_range(y as int),
        ensures
            final(self).body() == old(self).body().after_triangle_c(old(self).hit, x as int, y as int),
            final(self).hit == old(self).hit,
            final(self).in_world(),
    {
        self.judge_slope_ceiling(x, y, true, -0x800);
    }

    /// Resolves slope D (ceiling) at tile (`x`, `y`).
    pub fn judge_hit_triangle_d(&mut self, x: isize, y: isize)
        requires
            old(self).in_world(),
            tile_in_range(x as int),
            tile_in_range(y as int),
        ensures
            final(self).body() == old(self).body().after_triangle_d(old(self).hit, x as int, y as int),
            final(self).hit == old(self).hit,
            final(self).in_world(),
    {
        self.judge_slope_ceiling(x, y, true, 0x800);
    }

    /// Resolves slope E (floor) at tile (`x`, `y`).
    pub fn judge_hit_triangle_e(&mut self, x: isize, y: isize)
        requires
            old(self).in_world(),
            tile_in_range(x as int),
            tile_in_range(y as int),
        ensures
            final(self).body() == old(self).body().after_triangle_e(old(self).hit, x as int, y as int),
            final(self).hit == old(self).hit,
            final(self).in_world(),
    {
        self.judge_slope_floor(x, y, true, -0x800, FLAG_X10000, FLAG_X20);
    }

    /// Resolves slope F (floor) at tile (`x`, `y`).
    pub fn judge_hit_triangle_f(&mut self, x: isize, y: isize)
        requires
            old(self).in_world(),
            tile_in_range(x as int),
            tile_in_range(y as int),
        ensures
            final(self).body() == old(self).body().after_triangle_f(old(self).hit, x as int, y as int),
            final(self).hit == old(self).hit,
            final(self).in_world(),
    {
        self.judge_slope_floor(x, y, true, 0x800, FLAG_X20000, FLAG_X20);
    }

    /// Resolves slope G (floor) at tile (`x`, `y`).
    pub fn judge_hit_triangle_g(&mut self, x: isize, y: isize)
        requires
            old(self).in_world(),
            tile_in_range(x as int),
            tile_in_range(y as int),
        ensures
            final(self).body() == old(self).body().after_triangle_g(old(self).hit, x as int, y as int),
            final(self).hit == old(self).hit,
            final(self).in_world(),
    {
        self.judge_slope_floor(x, y, false, 0x800, FLAG_X40000, FLAG_X10);
    }

    /// Resolves slope H (floor) at tile (`x`, `y`).
    pub fn judge_hit_triangle_h(&mut self, x: isize, y: isize)
        requires
            old(self).in_world(),
            tile_in_range(x as int),
            tile_in_range(y as int),
        ensures
            final(self).body() == old(self).body().after_triangle_h(old(self).hit, x as int, y as int),
            final(self).hit == old(self).hit,
            final(self).in_world(),
    {
        self.judge_slope_floor(x, y, false, -0x800, FLAG_X80000, FLAG_X10);
    }

    /// Sets the underwater flag when the player overlaps the water tile (`x`, `y`).
    pub fn judge_hit_water(&mut self, x: isize, y: isize)
        requires
            old(self).in_world(),
            tile_in_range(x as int),
            tile_in_range(y as int),
        ensures
            final(self).body() == old(self).body().after_water(old(self).hit, x as int, y as int),
            final(self).hit == old(self).hit,
            final(self).in_world(),
    {
        let top = self.hit.top as isize;
        let bottom = self.hit.bottom as isize;
        let right = self.hit.right as isize;
        if (self.x - right) < (x * 0x10 + 5) * 0x200 && (self.x + right) > (x * 0x10 - 5) * 0x200
            && (self.y - top) < (y * 0x10 + 5) * 0x200 && (self.y + bottom) > y * 0x10 * 0x200 {
            self.flags.set(FLAG_UNDERWATER);
        }
    }
    /// Judges tile (`x`, `y`) of the map by its attribute; see `Body::after_tile`.
    fn judge_tile(&mut self, x: isize, y: isize, state: &GameState)
        requires
            old(self).in_world(),
            state.stage.map.wf(),
            0 <= x <= MAP_SIDE_LIMIT + 1,
            0 <= y <= MAP_SIDE_LIMIT + 1,
        ensures
            final(self).body() == old(self).body().after_tile(
                old(self).hit,
                state.stage.map.attribute(x as int, y as int),
                x as int,
                y as int,
                state.key_state,
            ),
            final(self).hit == old(self).hit,
            final(self).in_world(),
    {
        let attrib = state.stage.map.get_attribute(x as usize, y as usize);
        proof {
            lemma_wet_slope_bit(attrib);
        }
        match attrib {
            0x02 | 0x60 => {
                self.judge_hit_water(x, y);
            },
            0x05 | 0x41 | 0x43 | 0x46 => {
                self.judge_hit_block(x, y, state);
            },
            0x50 | 0x70 => {
                self.judge_hit_triangle_a(x, y);
                if attrib & 0x20 != 0 {
                    self.judge_hit_water(x, y);
                }
            },
            0x51 | 0x71 => {
                self.judge_hit_triangle_b(x, y);
                if attrib & 0x20 != 0 {
                    self.judge_hit_water(x, y);
                }
            },
            0x52 | 0x72 => {
                self.judge_hit_triangle_c(x, y);
                if attrib & 0x20 != 0 {
                    self.judge_hit_water(x, y);
                }
            },
            0x53 | 0x73 => {
                self.judge_hit_triangle_d(x, y);
                if attrib & 0x20 != 0 {
                    self.judge_hit_water(x, y);
                }
            },
            0x54 | 0x74 => {
                self.judge_hit_triangle_e(x, y);
                if attrib & 0x20 != 0 {
                    self.judge_hit_water(x, y);
                }
            },
            0x55 | 0x75 => {
                self.judge_hit_triangle_f(x, y);
                if attrib & 0x20 != 0 {
                    self.judge_hit_water(x, y);
                }
            },
            0x56 | 0x76 => {
                self.judge_hit_triangle_g(x, y);
                if attrib & 0x20 != 0 {
                    self.judge_hit_water(x, y);
                }
            },
            0x57 | 0x77 => {
                self.judge_hit_triangle_h(x, y);
                if attrib & 0x20 != 0 {
                    self.judge_hit_water(x, y);
                }
            },
            0x61 => {
                self.judge_hit_water(x, y);
                self.judge_hit_block(x, y, state);
            },
            _ => {},
        }
    }

    /// Resolves the player's collisions with the map around it: the tile that holds
    /// the player (clamped to the map) and the tiles to its right, below, and
    /// below-right, in that order.
    pub fn tick_map_collisions(&mut self, state: &GameState)
        requires
            old(self).in_world(),
            state.stage.map.wf(),
        ensures
            final(self).body() == old(self).body().after_map_collisions(
                old(self).hit,
                &state.stage.map,
                state.key_state,
            ),
            final(self).hit == old(self).hit,
            final(self).in_world(),
    {
        let x = clamp_isize(self.x / 0x10 / 0x200, 0, state.stage.map.width as isize);
        let y = clamp_isize(self.y / 0x10 / 0x200, 0, state.stage.map.height as isize);
        self.judge_tile(x, y, state);
        self.judge_tile(x + 1, y, state);
        self.judge_tile(x, y + 1, state);
        self.judge_tile(x + 1, y + 1, state);
    }
}

} // verus!
