use vstd::prelude::*;
use crate::common::{KeyState, Rect};
use crate::map::TileMap;
use crate::player::{Body, FLAG_X01, FLAG_X04};
use crate::player_hit::tile_edge;

verus! {

/// `after` keeps every bit that `before` has set.
pub open spec fn keeps_bits(before: u32, after: u32) -> bool {
    before & after == before
}

proof fn lemma_or_keeps_bits(a: u32, m: u32)
    ensures
        keeps_bits(a, a | m),
{
    assert(a & (a | m) == a) by (bit_vector);
}

proof fn lemma_keeps_bits_trans(a: u32, b: u32, c: u32)
    requires
        keeps_bits(a, b),
        keeps_bits(b, c),
    ensures
        keeps_bits(a, c),
{
    assert((a & b == a && b & c == b) ==> a & c == a) by (bit_vector);
}

proof fn lemma_keeps_bits_refl(a: u32)
    ensures
        keeps_bits(a, a),
{
    assert(a & a == a) by (bit_vector);
}

proof fn lemma_block_keeps_flags(b: Body, hit: Rect, tx: int, ty: int, keys: KeyState)
    ensures
        keeps_bits(b.flags, b.after_block(hit, tx, ty, keys).flags),
{
    let b1 = b.off_left_wall(hit, tx, ty, keys.spec_left());
    let b2 = b1.off_right_wall(hit, tx, ty, keys.spec_right());
    let b3 = b2.off_ceiling(hit, tx, ty);
    let b4 = b3.off_floor(hit, tx, ty);
    lemma_or_keeps_bits(b.flags, FLAG_X01);
    lemma_keeps_bits_refl(b.flags);
    lemma_or_keeps_bits(b1.flags, FLAG_X04);
    lemma_keeps_bits_refl(b1.flags);
    lemma_or_keeps_bits(b2.flags, 0x02);
    lemma_keeps_bits_refl(b2.flags);
    lemma_or_keeps_bits(b3.flags, 0x08);
    lemma_keeps_bits_refl(b3.flags);
    lemma_keeps_bits_trans(b.flags, b1.flags, b2.flags);
    lemma_keeps_bits_trans(b.flags, b2.flags, b3.flags);
    lemma_keeps_bits_trans(b.flags, b3.flags, b4.flags);
}

proof fn lemma_slope_ceiling_keeps_flags(b: Body, hit: Rect, tx: int, ty: int, rising: bool, shift: int)
    ensures
        keeps_bits(b.flags, b.off_slope_ceiling(hit, tx, ty, rising, shift).flags),
{
    lemma_or_keeps_bits(b.flags, 0x02);
    lemma_keeps_bits_refl(b.flags);
}

proof fn lemma_slope_floor_keeps_flags(
    b: Body,
    hit: Rect,
    tx: int,
    ty: int,
    rising: bool,
    shift: int,
    marker: u32,
    side: u32,
)
    ensures
        keeps_bits(b.flags, b.off_slope_floor(hit, tx, ty, rising, shift, marker, side).flags),
{
    let f1 = b.flags | marker;
    lemma_or_keeps_bits(b.flags, marker);
    lemma_or_keeps_bits(f1, side);
    lemma_or_keeps_bits(f1 | side, 0x08);
    lemma_keeps_bits_trans(b.flags, f1, f1 | side);
    lemma_keeps_bits_trans(b.flags, f1 | side, (f1 | side) | 0x08);
}

proof fn lemma_water_keeps_flags(b: Body, hit: Rect, tx: int, ty: int)
    ensures
        keeps_bits(b.flags, b.after_water(hit, tx, ty).flags),
{
    lemma_or_keeps_bits(b.flags, 0x100);
    lemma_keeps_bits_refl(b.flags);
}

/// Judging a tile never clears a contact flag: every flag set before is still set after.
pub proof fn lemma_tile_keeps_flags(b: Body, hit: Rect, attrib: u8, tx: int, ty: int, keys: KeyState)
    ensures
        keeps_bits(b.flags, b.after_tile(hit, attrib, tx, ty, keys).flags),
{
    lemma_keeps_bits_refl(b.flags);
    lemma_water_keeps_flags(b, hit, tx, ty);
    lemma_block_keeps_flags(b, hit, tx, ty, keys);
    let w = b.after_water(hit, tx, ty);
    lemma_block_keeps_flags(w, hit, tx, ty, keys);
    lemma_keeps_bits_trans(b.flags, w.flags, w.after_block(hit, tx, ty, keys).flags);
    let slope = if attrib == 0x50 || attrib == 0x70 {
        b.after_triangle_a(hit, tx, ty)
    } else if attrib == 0x51 || attrib == 0x71 {
        b.after_triangle_b(hit, tx, ty)
    } else if attrib == 0x52 || attrib == 0x72 {
        b.after_triangle_c(hit, tx, ty)
    } else if attrib == 0x53 || attrib == 0x73 {
        b.after_triangle_d(hit, tx, ty)
    } else if attrib == 0x54 || attrib == 0x74 {
        b.after_triangle_e(hit, tx, ty)
    } else if attrib == 0x55 || attrib == 0x75 {
        b.after_triangle_f(hit, tx, ty)
    } else if attrib == 0x56 || attrib == 0x76 {
        b.after_triangle_g(hit, tx, ty)
    } else {
        b.after_triangle_h(hit, tx, ty)
    };
    lemma_slope_ceiling_keeps_flags(b, hit, tx, ty, false, 0x800);
    lemma_slope_ceiling_keeps_flags(b, hit, tx, ty, false, -0x800);
    lemma_slope_ceiling_keeps_flags(b, hit, tx, ty, true, -0x800);
    lemma_slope_ceiling_keeps_flags(b, hit, tx, ty, true, 0x800);
    lemma_slope_floor_keeps_flags(b, hit, tx, ty, true, -0x800, 0x10000, 0x20);
    lemma_slope_floor_keeps_flags(b, hit, tx, ty, true, 0x800, 0x20000, 0x20);
    lemma_slope_floor_keeps_flags(b, hit, tx, ty, false, 0x800, 0x40000, 0x10);
    lemma_slope_floor_keeps_flags(b, hit, tx, ty, false, -0x800, 0x80000, 0x10);
    lemma_water_keeps_flags(slope, hit, tx, ty);
    lemma_keeps_bits_trans(b.flags, slope.flags, slope.after_water(hit, tx, ty).flags);
}

/// A pass of map collisions never clears a contact flag.
pub proof fn lemma_map_collisions_keep_flags(b: Body, hit: Rect, map: &TileMap, keys: KeyState)
    ensures
        keeps_bits(b.flags, b.after_map_collisions(hit, map, keys).flags),
{
    let tx = crate::common::clamped(crate::player_hit::tile_of(b.x), 0, map.width as int);
    let ty = crate::common::clamped(crate::player_hit::tile_of(b.y), 0, map.height as int);
    let b1 = b.after_tile(hit, map.attribute(tx, ty), tx, ty, keys);
    let b2 = b1.after_tile(hit, map.attribute(tx + 1, ty), tx + 1, ty, keys);
    let b3 = b2.after_tile(hit, map.attribute(tx, ty + 1), tx, ty + 1, keys);
    let b4 = b3.after_tile(hit, map.attribute(tx + 1, ty + 1), tx + 1, ty + 1, keys);
    lemma_tile_keeps_flags(b, hit, map.attribute(tx, ty), tx, ty, keys);
    lemma_tile_keeps_flags(b1, hit, map.attribute(tx + 1, ty), tx + 1, ty, keys);
    lemma_tile_keeps_flags(b2, hit, map.attribute(tx, ty + 1), tx, ty + 1, keys);
    lemma_tile_keeps_flags(b3, hit, map.attribute(tx + 1, ty + 1), tx + 1, ty + 1, keys);
    lemma_keeps_bits_trans(b.flags, b1.flags, b2.flags);
    lemma_keeps_bits_trans(b.flags, b2.flags, b3.flags);
    lemma_keeps_bits_trans(b.flags, b3.flags, b4.flags);
}

/// Resolving against the same solid block a second time changes nothing: once resolved,
/// the player no longer overlaps any side of the block.
pub proof fn lemma_block_idempotent(b: Body, hit: Rect, tx: int, ty: int, keys: KeyState)
    ensures
        b.after_block(hit, tx, ty, keys).after_block(hit, tx, ty, keys) == b.after_block(hit, tx, ty, keys),
{
    let r = b.after_block(hit, tx, ty, keys);
    assert(!r.touches_left_wall(hit, tx, ty));
    assert(!r.touches_right_wall(hit, tx, ty));
    assert(!r.touches_ceiling(hit, tx, ty));
    assert(!r.touches_floor(hit, tx, ty));
}

/// A player whose left side was inside the right half of a block, level with it,
/// ends with that side on the block's right edge, moving left at no more than 0x180
/// sub-pixels per tick, with the left-wall flag added and nothing else changed.
pub proof fn lemma_left_wall_resolved(b: Body, hit: Rect, tx: int, ty: int, keys: KeyState)
    requires
        b.y - hit.top < ((ty * 16) + 4) * 0x200,
        b.y + hit.bottom > ((ty * 16) - 4) * 0x200,
        b.x - hit.right < ((tx * 16) + 8) * 0x200,
        b.x - hit.right > tx * 16 * 0x200,
    ensures
        b.after_block(hit, tx, ty, keys).x - hit.right == ((tx * 16) + 8) * 0x200,
        b.after_block(hit, tx, ty, keys).xm >= -0x180,
        b.after_block(hit, tx, ty, keys).y == b.y,
        b.after_block(hit, tx, ty, keys).ym == b.ym,
        b.after_block(hit, tx, ty, keys).flags == b.flags | 0x01,
        b.after_block(hit, tx, ty, keys).flags & FLAG_X01 != 0,
{
    let f = b.flags;
    assert((f | 1u32) & 1u32 != 0) by (bit_vector);
    let b1 = b.off_left_wall(hit, tx, ty, keys.spec_left());
    assert(!b1.touches_right_wall(hit, tx, ty));
    assert(!b1.touches_ceiling(hit, tx, ty));
    assert(!b1.touches_floor(hit, tx, ty));
}

/// A player whose right side was inside the left half of a block, level with it,
/// ends with that side on the block's left edge, moving right at no more than 0x180
/// sub-pixels per tick, with the right-wall flag added and nothing else changed.
pub proof fn lemma_right_wall_resolved(b: Body, hit: Rect, tx: int, ty: int, keys: KeyState)
    requires
        b.y - hit.top < ((ty * 16) + 4) * 0x200,
        b.y + hit.bottom > ((ty * 16) - 4) * 0x200,
        b.x + hit.right > ((tx * 16) - 8) * 0x200,
        b.x + hit.right < tx * 16 * 0x200,
    ensures
        b.after_block(hit, tx, ty, keys).x + hit.right == ((tx * 16) - 8) * 0x200,
        b.after_block(hit, tx, ty, keys).xm <= 0x180,
        b.after_block(hit, tx, ty, keys).y == b.y,
        b.after_block(hit, tx, ty, keys).ym == b.ym,
        b.after_block(hit, tx, ty, keys).flags == b.flags | 0x04,
        b.after_block(hit, tx, ty, keys).flags & FLAG_X04 != 0,
{
    assert(!b.touches_left_wall(hit, tx, ty));
    let f = b.flags;
    assert((f | 4u32) & 4u32 != 0) by (bit_vector);
    let b2 = b.off_right_wall(hit, tx, ty, keys.spec_right());
    assert(!b2.touches_ceiling(hit, tx, ty));
    assert(!b2.touches_floor(hit, tx, ty));
}

/// A player whose head is inside the lower quarter of a block, under it, is put with
/// its head on the block's bottom edge, stops moving up, gains the ceiling flag, and
/// keeps everything else.
pub proof fn lemma_ceiling_resolved(b: Body, hit: Rect, tx: int, ty: int, keys: KeyState)
    requires
        b.x - hit.right < ((tx * 16) + 5) * 0x200,
        b.x + hit.right > ((tx * 16) - 5) * 0x200,
        b.y - hit.top < ((ty * 16) + 8) * 0x200,
        b.y - hit.top >= ((ty * 16) + 4) * 0x200,
    ensures
        b.after_block(hit, tx, ty, keys) == (Body {
            y: ((ty * 16) + 8) * 0x200 + hit.top,
            ym: if b.ym < 0 { 0 } else { b.ym },
            flags: b.flags | 0x02,
            ..b
        }),
{
}

/// A player whose feet are inside the upper quarter of a block, over it, is put with
/// its feet on the block's top edge, stops falling, gains the floor flag, and keeps
/// everything else.
pub proof fn lemma_floor_resolved(b: Body, hit: Rect, tx: int, ty: int, keys: KeyState)
    requires
        b.x - hit.right < ((tx * 16) + 5) * 0x200,
        b.x + hit.right > ((tx * 16) - 5) * 0x200,
        b.y + hit.bottom > ((ty * 16) - 8) * 0x200,
        b.y + hit.bottom <= ((ty * 16) - 4) * 0x200,
    ensures
        b.after_block(hit, tx, ty, keys) == (Body {
            y: ((ty * 16) - 8) * 0x200 - hit.bottom,
            ym: if b.ym > 0 { 0 } else { b.ym },
            flags: b.flags | 0x08,
            ..b
        }),
{
}

/// A player whose box does not overlap a block's square at all is not moved, slowed
/// or flagged by it.
pub proof fn lemma_block_far_away(b: Body, hit: Rect, tx: int, ty: int, keys: KeyState)
    requires
        b.x - hit.right >= ((tx * 16) + 8) * 0x200 || b.x + hit.right <= ((tx * 16) - 8) * 0x200
            || b.y - hit.top >= ((ty * 16) + 8) * 0x200 || b.y + hit.bottom <= ((ty * 16) - 8) * 0x200,
    ensures
        b.after_block(hit, tx, ty, keys) == b,
{
}

/// `v / 2` rounded toward zero, written out.
pub open spec fn halved(v: int) -> int {
    if v >= 0 {
        v / 2
    } else {
        -((-v) / 2)
    }
}

/// The four ceiling slopes, each a line through the tile at half a sub-pixel per
/// sub-pixel: with `d` the player's offset from the tile's centre column, A runs at
/// `-d/2 + 0x800`, B at `-d/2 - 0x800`, C at `d/2 - 0x800` and D at `d/2 + 0x800`
/// below the tile's centre. When the player's centre is strictly within the tile's
/// columns, its head above the line and its feet below the tile's top, its head is
/// put on the line, it stops moving up and gains the ceiling flag; otherwise nothing
/// changes.
pub proof fn lemma_ceiling_slopes(b: Body, hit: Rect, tx: int, ty: int)
    ensures
        ({
            let h = halved(b.x - tx * 16 * 0x200);
            let cols = b.x < ((tx * 16) + 8) * 0x200 && b.x > ((tx * 16) - 8) * 0x200;
            let feet_in = b.y + hit.bottom > ((ty * 16) - 8) * 0x200;
            let put = |line: int|
                if cols && b.y - hit.top < line && feet_in {
                    Body { y: line + hit.top, ym: if b.ym < 0 { 0 } else { b.ym }, flags: b.flags | 0x02, ..b }
                } else {
                    b
                };
            &&& b.after_triangle_a(hit, tx, ty) == put(ty * 16 * 0x200 - h + 0x800)
            &&& b.after_triangle_b(hit, tx, ty) == put(ty * 16 * 0x200 - h - 0x800)
            &&& b.after_triangle_c(hit, tx, ty) == put(ty * 16 * 0x200 + h - 0x800)
            &&& b.after_triangle_d(hit, tx, ty) == put(ty * 16 * 0x200 + h + 0x800)
        }),
{
}

/// The four floor slopes, lines like the ceiling slopes: E at `d/2 - 0x800`, F at
/// `d/2 + 0x800`, G at `-d/2 + 0x800`, H at `-d/2 - 0x800` below the tile's centre.
/// Each always adds its own marker flag (0x10000, 0x20000, 0x40000, 0x80000). When the
/// player's centre is strictly within the tile's columns, its feet below the line and
/// its head above the tile's bottom, its feet are put on the line, it stops falling,
/// and it gains the floor flag and the flag of the slope's side (0x20 for E and F,
/// which fall to the right, 0x10 for G and H, which rise to the right); otherwise
/// only the marker is added.
pub proof fn lemma_floor_slopes(b: Body, hit: Rect, tx: int, ty: int)
    ensures
        ({
            let h = halved(b.x - tx * 16 * 0x200);
            let cols = b.x < ((tx * 16) + 8) * 0x200 && b.x > ((tx * 16) - 8) * 0x200;
            let head_in = b.y - hit.top < ((ty * 16) + 8) * 0x200;
            let put = |line: int, marker: u32, side: u32|
                if cols && b.y + hit.bottom > line && head_in {
                    Body {
                        y: line - hit.bottom,
                        ym: if b.ym > 0 { 0 } else { b.ym },
                        flags: ((b.flags | marker) | side) | 0x08,
                        ..b
                    }
                } else {
                    Body { flags: b.flags | marker, ..b }
                };
            &&& b.after_triangle_e(hit, tx, ty) == put(ty * 16 * 0x200 + h - 0x800, 0x10000, 0x20)
            &&& b.after_triangle_f(hit, tx, ty) == put(ty * 16 * 0x200 + h + 0x800, 0x20000, 0x20)
            &&& b.after_triangle_g(hit, tx, ty) == put(ty * 16 * 0x200 - h + 0x800, 0x40000, 0x10)
            &&& b.after_triangle_h(hit, tx, ty) == put(ty * 16 * 0x200 - h - 0x800, 0x80000, 0x10)
        }),
{
}

/// Which judgement each tile attribute calls for: water (0x02, 0x60), a solid
/// block (0x05, 0x41, 0x43, 0x46), the slopes A..H (0x50..=0x57), the same slopes
/// followed by water (0x70..=0x77), water then a solid block (0x61); any other
/// attribute changes nothing.
pub proof fn lemma_tile_attributes(b: Body, hit: Rect, tx: int, ty: int, keys: KeyState)
    ensures
        b.after_tile(hit, 0x02, tx, ty, keys) == b.after_water(hit, tx, ty),
        b.after_tile(hit, 0x60, tx, ty, keys) == b.after_water(hit, tx, ty),
        b.after_tile(hit, 0x05, tx, ty, keys) == b.after_block(hit, tx, ty, keys),
        b.after_tile(hit, 0x41, tx, ty, keys) == b.after_block(hit, tx, ty, keys),
        b.after_tile(hit, 0x43, tx, ty, keys) == b.after_block(hit, tx, ty, keys),
        b.after_tile(hit, 0x46, tx, ty, keys) == b.after_block(hit, tx, ty, keys),
        b.after_tile(hit, 0x50, tx, ty, keys) == b.after_triangle_a(hit, tx, ty),
        b.after_tile(hit, 0x51, tx, ty, keys) == b.after_triangle_b(hit, tx, ty),
        b.after_tile(hit, 0x52, tx, ty, keys) == b.after_triangle_c(hit, tx, ty),
        b.after_tile(hit, 0x53, tx, ty, keys) == b.after_triangle_d(hit, tx, ty),
        b.after_tile(hit, 0x54, tx, ty, keys) == b.after_triangle_e(hit, tx, ty),
        b.after_tile(hit, 0x55, tx, ty, keys) == b.after_triangle_f(hit, tx, ty),
        b.after_tile(hit, 0x56, tx, ty, keys) == b.after_triangle_g(hit, tx, ty),
        b.after_tile(hit, 0x57, tx, ty, keys) == b.after_triangle_h(hit, tx, ty),
        b.after_tile(hit, 0x70, tx, ty, keys) == b.after_triangle_a(hit, tx, ty).after_water(hit, tx, ty),
        b.after_tile(hit, 0x71, tx, ty, keys) == b.after_triangle_b(hit, tx, ty).after_water(hit, tx, ty),
        b.after_tile(hit, 0x72, tx, ty, keys) == b.after_triangle_c(hit, tx, ty).after_water(hit, tx, ty),
        b.after_tile(hit, 0x73, tx, ty, keys) == b.after_triangle_d(hit, tx, ty).after_water(hit, tx, ty),
        b.after_tile(hit, 0x74, tx, ty, keys) == b.after_triangle_e(hit, tx, ty).after_water(hit, tx, ty),
        b.after_tile(hit, 0x75, tx, ty, keys) == b.after_triangle_f(hit, tx, ty).after_water(hit, tx, ty),
        b.after_tile(hit, 0x76, tx, ty, keys) == b.after_triangle_g(hit, tx, ty).after_water(hit, tx, ty),
        b.after_tile(hit, 0x77, tx, ty, keys) == b.after_triangle_h(hit, tx, ty).after_water(hit, tx, ty),
        b.after_tile(hit, 0x61, tx, ty, keys) == b.after_water(hit, tx, ty).after_block(hit, tx, ty, keys),
        forall|a: u8|
            !(a == 0x02 || a == 0x60 || a == 0x05 || a == 0x41 || a == 0x43 || a == 0x46 || a == 0x61
                || (0x50 <= a <= 0x57) || (0x70 <= a <= 0x77)) ==> #[trigger] b.after_tile(hit, a, tx, ty, keys) == b,
{
}

/// Resolving against the same sloped ceiling twice changes nothing.
pub proof fn lemma_slope_ceiling_idempotent(b: Body, hit: Rect, tx: int, ty: int, rising: bool, shift: int)
    ensures
        b.off_slope_ceiling(hit, tx, ty, rising, shift).off_slope_ceiling(hit, tx, ty, rising, shift)
            == b.off_slope_ceiling(hit, tx, ty, rising, shift),
{
}

/// Resolving against the same sloped floor twice changes nothing.
pub proof fn lemma_slope_floor_idempotent(
    b: Body,
    hit: Rect,
    tx: int,
    ty: int,
    rising: bool,
    shift: int,
    marker: u32,
    side: u32,
)
    ensures
        b.off_slope_floor(hit, tx, ty, rising, shift, marker, side).off_slope_floor(
            hit,
            tx,
            ty,
            rising,
            shift,
            marker,
            side,
        ) == b.off_slope_floor(hit, tx, ty, rising, shift, marker, side),
{
    let r = b.off_slope_floor(hit, tx, ty, rising, shift, marker, side);
    let f = b.flags;
    assert(((f | marker) | marker) == (f | marker)) by (bit_vector);
    assert((((f | marker) | side) | 8u32) | marker == ((f | marker) | side) | 8u32) by (bit_vector);
}

/// Water changes nothing but the underwater flag.
pub proof fn lemma_water_only_sets_flag(b: Body, hit: Rect, tx: int, ty: int)
    ensures
        b.after_water(hit, tx, ty).x == b.x,
        b.after_water(hit, tx, ty).y == b.y,
        b.after_water(hit, tx, ty).xm == b.xm,
        b.after_water(hit, tx, ty).ym == b.ym,
        b.after_water(hit, tx, ty).flags == b.flags || b.after_water(hit, tx, ty).flags == b.flags | 0x100,
{
}

} // verus!

verus! {

/// A tile whose attribute is 0 (empty) changes nothing.
pub proof fn lemma_empty_tile_does_nothing(b: Body, hit: Rect, tx: int, ty: int, keys: KeyState)
    ensures
        b.after_tile(hit, 0, tx, ty, keys) == b,
{
}

/// The column (or row) that a pass of map collisions starts from for coordinate `v`
/// on a map `side` tiles long is `t` when `v` lies in tile `t`, and is clamped to 0
/// before the map and to `side` past it.
proof fn lemma_base_tile(v: int, t: int, side: int)
    requires
        0 <= t <= side,
        (t * 0x2000 <= v < (t + 1) * 0x2000) || (t == 0 && v < 0x2000) || (t == side && v >= t * 0x2000),
    ensures
        crate::common::clamped(crate::player_hit::tile_of(v), 0, side) == t,
{
    if v >= 0 {
        vstd::arithmetic::div_mod::lemma_div_denominator(v, 0x10, 0x200);
        assert(crate::player_hit::tile_of(v) == v / 0x2000);
    } else {
        assert(crate::player_hit::tile_of(v) <= 0);
    }
}

/// When the player's centre lies in tile (`tx`, `ty`) of the map (a player before the
/// map's first column or row counting as in it, and one past its last as in the
/// column or row just outside) and, of the four tiles a pass judges ((tx, ty),
/// (tx + 1, ty), (tx, ty + 1), (tx + 1, ty + 1)), only the one at offset (`dx`, `dy`)
/// is non-empty, the pass is exactly the judgement of that one tile: every one of the
/// four neighbours is judged.
pub proof fn lemma_map_collisions_judge_each_neighbour(
    b: Body,
    hit: Rect,
    map: &TileMap,
    keys: KeyState,
    tx: int,
    ty: int,
    dx: int,
    dy: int,
)
    requires
        0 <= tx <= map.width,
        0 <= ty <= map.height,
        (tx * 0x2000 <= b.x < (tx + 1) * 0x2000) || (tx == 0 && b.x < 0x2000) || (tx == map.width && b.x
            >= tx * 0x2000),
        (ty * 0x2000 <= b.y < (ty + 1) * 0x2000) || (ty == 0 && b.y < 0x2000) || (ty == map.height && b.y
            >= ty * 0x2000),
        0 <= dx <= 1,
        0 <= dy <= 1,
        forall|i: int, j: int|
            0 <= i <= 1 && 0 <= j <= 1 && (i != dx || j != dy) ==> #[trigger] map.attribute(tx + i, ty + j) == 0,
    ensures
        b.after_map_collisions(hit, map, keys) == b.after_tile(
            hit,
            map.attribute(tx + dx, ty + dy),
            tx + dx,
            ty + dy,
            keys,
        ),
{
    lemma_base_tile(b.x, tx, map.width as int);
    lemma_base_tile(b.y, ty, map.height as int);
    assert(map.attribute(tx + 0, ty + 0) == map.attribute(tx, ty));
    assert(map.attribute(tx + 1, ty + 0) == map.attribute(tx + 1, ty));
    assert(map.attribute(tx + 0, ty + 1) == map.attribute(tx, ty + 1));
    if dx == 0 && dy == 0 {
        assert(map.attribute(tx + 1, ty + 0) == 0);
        assert(map.attribute(tx + 0, ty + 1) == 0);
        assert(map.attribute(tx + 1, ty + 1) == 0);
        let r = b.after_tile(hit, map.attribute(tx, ty), tx, ty, keys);
        lemma_empty_tile_does_nothing(r, hit, tx + 1, ty, keys);
        lemma_empty_tile_does_nothing(r, hit, tx, ty + 1, keys);
        lemma_empty_tile_does_nothing(r, hit, tx + 1, ty + 1, keys);
    } else if dx == 1 && dy == 0 {
        assert(map.attribute(tx + 0, ty + 0) == 0);
        assert(map.attribute(tx + 0, ty + 1) == 0);
        assert(map.attribute(tx + 1, ty + 1) == 0);
        lemma_empty_tile_does_nothing(b, hit, tx, ty, keys);
        let r = b.after_tile(hit, map.attribute(tx + 1, ty), tx + 1, ty, keys);
        lemma_empty_tile_does_nothing(r, hit, tx, ty + 1, keys);
        lemma_empty_tile_does_nothing(r, hit, tx + 1, ty + 1, keys);
    } else if dx == 0 && dy == 1 {
        assert(map.attribute(tx + 0, ty + 0) == 0);
        assert(map.attribute(tx + 1, ty + 0) == 0);
        assert(map.attribute(tx + 1, ty + 1) == 0);
        lemma_empty_tile_does_nothing(b, hit, tx, ty, keys);
        lemma_empty_tile_does_nothing(b, hit, tx + 1, ty, keys);
        let r = b.after_tile(hit, map.attribute(tx, ty + 1), tx, ty + 1, keys);
        lemma_empty_tile_does_nothing(r, hit, tx + 1, ty + 1, keys);
    } else {
        assert(map.attribute(tx + 0, ty + 0) == 0);
        assert(map.attribute(tx + 1, ty + 0) == 0);
        assert(map.attribute(tx + 0, ty + 1) == 0);
        lemma_empty_tile_does_nothing(b, hit, tx, ty, keys);
        lemma_empty_tile_does_nothing(b, hit, tx + 1, ty, keys);
        lemma_empty_tile_does_nothing(b, hit, tx, ty + 1, keys);
    }
}

/// A player walking into a solid block on its right, with that block the only
/// non-empty tile around it, ends with its right side on the block's left edge,
/// moving right at no more than 0x180, with the right-wall flag set.
pub proof fn lemma_map_collisions_stop_at_right_wall(
    b: Body,
    hit: Rect,
    map: &TileMap,
    keys: KeyState,
    tx: int,
    ty: int,
)
    requires
        0 <= tx <= map.width,
        0 <= ty <= map.height,
        tx * 0x2000 <= b.x < (tx + 1) * 0x2000,
        ty * 0x2000 <= b.y < (ty + 1) * 0x2000,
        map.attribute(tx + 1, ty) == 0x41,
        map.attribute(tx, ty) == 0,
        map.attribute(tx, ty + 1) == 0,
        map.attribute(tx + 1, ty + 1) == 0,
        b.y - hit.top < ((ty * 16) + 4) * 0x200,
        b.y + hit.bottom > ((ty * 16) - 4) * 0x200,
        b.x + hit.right > ((tx + 1) * 16 - 8) * 0x200,
        b.x + hit.right < (tx + 1) * 16 * 0x200,
    ensures
        b.after_map_collisions(hit, map, keys).x + hit.right == ((tx + 1) * 16 - 8) * 0x200,
        b.after_map_collisions(hit, map, keys).xm <= 0x180,
        b.after_map_collisions(hit, map, keys).flags & FLAG_X04 != 0,
{
    assert forall|i: int, j: int|
        0 <= i <= 1 && 0 <= j <= 1 && (i != 1 || j != 0) implies #[trigger] map.attribute(tx + i, ty + j) == 0 by {
        if i == 0 && j == 0 {
            assert(map.attribute(tx + i, ty + j) == map.attribute(tx, ty));
        } else if i == 0 {
            assert(map.attribute(tx + i, ty + j) == map.attribute(tx, ty + 1));
        } else {
            assert(map.attribute(tx + i, ty + j) == map.attribute(tx + 1, ty + 1));
        }
    }
    lemma_map_collisions_judge_each_neighbour(b, hit, map, keys, tx, ty, 1, 0);
    assert(map.attribute(tx + 1, ty + 0) == map.attribute(tx + 1, ty));
    lemma_right_wall_resolved(b, hit, tx + 1, ty, keys);
}

/// Against a wall on its right, the player keeps moving right only while right is
/// held, and then at `min(xm, 0x180)`; without right held its rightward speed is
/// zeroed and a leftward one is kept.
pub proof fn lemma_right_wall_speed(b: Body, hit: Rect, tx: int, ty: int, keys: KeyState)
    requires
        b.y - hit.top < ((ty * 16) + 4) * 0x200,
        b.y + hit.bottom > ((ty * 16) - 4) * 0x200,
        b.x + hit.right > ((tx * 16) - 8) * 0x200,
        b.x + hit.right < tx * 16 * 0x200,
    ensures
        keys.0 & 0x02 != 0 ==> b.after_block(hit, tx, ty, keys).xm == (if b.xm < 0x180 { b.xm } else { 0x180 }),
        keys.0 & 0x02 == 0 ==> b.after_block(hit, tx, ty, keys).xm == (if b.xm > 0 { 0 } else { b.xm }),
{
    assert(!b.touches_left_wall(hit, tx, ty));
}

/// Against a wall on its left, the player keeps moving left only while left is
/// held, and then at `max(xm, -0x180)`; without left held its leftward speed is
/// zeroed and a rightward one is kept.
pub proof fn lemma_left_wall_speed(b: Body, hit: Rect, tx: int, ty: int, keys: KeyState)
    requires
        b.y - hit.top < ((ty * 16) + 4) * 0x200,
        b.y + hit.bottom > ((ty * 16) - 4) * 0x200,
        b.x - hit.right < ((tx * 16) + 8) * 0x200,
        b.x - hit.right > tx * 16 * 0x200,
    ensures
        keys.0 & 0x01 != 0 ==> b.after_block(hit, tx, ty, keys).xm == (if b.xm > -0x180 { b.xm } else { -0x180 }),
        keys.0 & 0x01 == 0 ==> b.after_block(hit, tx, ty, keys).xm == (if b.xm < 0 { 0 } else { b.xm }),
{
    let b1 = b.off_left_wall(hit, tx, ty, keys.spec_left());
    assert(!b1.touches_right_wall(hit, tx, ty));
}

/// Judging a water tile sets the underwater flag exactly when the player overlaps the
/// tile: its sides within five pixels of the tile's centre column, its head above the
/// point five pixels below the tile's centre, and its feet below the tile's centre;
/// position, speed and every other flag are left as they were.
pub proof fn lemma_water_flag_exactly_on_overlap(b: Body, hit: Rect, tx: int, ty: int)
    ensures
        ({
            let r = b.after_water(hit, tx, ty);
            let overlap = b.x - hit.right < ((tx * 16) + 5) * 0x200 && b.x + hit.right > ((tx * 16) - 5) * 0x200
                && b.y - hit.top < ((ty * 16) + 5) * 0x200 && b.y + hit.bottom > ty * 16 * 0x200;
            &&& r.x == b.x && r.y == b.y && r.xm == b.xm && r.ym == b.ym
            &&& overlap ==> r.flags & 0x100 != 0
            &&& (r.flags & 0x100 != 0 && b.flags & 0x100 == 0) ==> overlap
            &&& r.flags & !0x100u32 == b.flags & !0x100u32
        }),
{
    let f = b.flags;
    assert((f | 0x100u32) & 0x100u32 != 0) by (bit_vector);
    assert((f | 0x100u32) & !0x100u32 == f & !0x100u32) by (bit_vector);
}


/// A pass of map collisions judges the player's tile, then the one to its right, then
/// the one below, then the one below and to the right, each from where the previous
/// judgement left the player, with the tile the player started in as the base.
pub proof fn lemma_map_collisions_order(b: Body, hit: Rect, map: &TileMap, keys: KeyState, tx: int, ty: int)
    requires
        0 <= tx <= map.width,
        0 <= ty <= map.height,
        (tx * 0x2000 <= b.x < (tx + 1) * 0x2000) || (tx == 0 && b.x < 0x2000) || (tx == map.width && b.x
            >= tx * 0x2000),
        (ty * 0x2000 <= b.y < (ty + 1) * 0x2000) || (ty == 0 && b.y < 0x2000) || (ty == map.height && b.y
            >= ty * 0x2000),
    ensures
        ({
            let b1 = b.after_tile(hit, map.attribute(tx, ty), tx, ty, keys);
            let b2 = b1.after_tile(hit, map.attribute(tx + 1, ty), tx + 1, ty, keys);
            let b3 = b2.after_tile(hit, map.attribute(tx, ty + 1), tx, ty + 1, keys);
            b.after_map_collisions(hit, map, keys) == b3.after_tile(
                hit,
                map.attribute(tx + 1, ty + 1),
                tx + 1,
                ty + 1,
                keys,
            )
        }),
{
    lemma_base_tile(b.x, tx, map.width as int);
    lemma_base_tile(b.y, ty, map.height as int);
}

} // verus!
