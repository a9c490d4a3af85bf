use doukutsu_logic::common::{KeyState, Rect};
use doukutsu_logic::game_state::{GameState, Stage};
use doukutsu_logic::map::TileMap;
use doukutsu_logic::player::{Flags, Player};

fn player_at(x: isize, y: isize, xm: isize, ym: isize) -> Player {
    Player {
        x,
        y,
        xm,
        ym,
        hit: Rect { left: 0x1000, top: 0x1000, right: 0x1000, bottom: 0x1000 },
        flags: Flags(0),
    }
}

fn empty_map(width: usize, height: usize) -> TileMap {
    let mut attrib = [0u8; 256];
    attrib[1] = 0x41;
    attrib[2] = 0x50;
    attrib[3] = 0x02;
    TileMap { width, height, tiles: vec![0u8; width * height], attrib }
}

fn state_with(map: TileMap, keys: u16) -> GameState {
    GameState { key_state: KeyState(keys), stage: Stage { map } }
}

#[test]
fn block_left_wall_pushes_right_and_stops() {
    let state = state_with(empty_map(4, 4), 0);
    let mut p = player_at(23096, 24576, -0x300, 5);
    p.judge_hit_block(2, 3, &state);
    assert_eq!(p.x, 24576);
    assert_eq!(p.y, 24576);
    assert_eq!(p.xm, 0);
    assert_eq!(p.ym, 5);
    assert_eq!(p.flags.0, 0x01);
}

#[test]
fn block_left_wall_caps_speed_when_left_held() {
    let state = state_with(empty_map(4, 4), 0x01);
    let mut p = player_at(23096, 24576, -0x300, 0);
    p.judge_hit_block(2, 3, &state);
    assert_eq!(p.x, 24576);
    assert_eq!(p.xm, -0x180);
    assert_eq!(p.flags.0, 0x01);
}

#[test]
fn block_right_wall_pushes_left() {
    let state = state_with(empty_map(4, 4), 0);
    // right side at 15000, inside the left half (12288, 16384) of tile 2
    let mut p = player_at(15000 - 0x1000, 24576, 0x300, 0);
    p.judge_hit_block(2, 3, &state);
    assert_eq!(p.x, 12288 - 0x1000);
    assert_eq!(p.xm, 0);
    assert_eq!(p.flags.0, 0x04);
}

#[test]
fn block_floor_lands_player() {
    let state = state_with(empty_map(4, 4), 0);
    let mut p = player_at(16384, 17904, 0, 0x300);
    p.judge_hit_block(2, 3, &state);
    assert_eq!(p.y, 16384);
    assert_eq!(p.ym, 0);
    assert_eq!(p.flags.0, 0x08);
}

#[test]
fn block_ceiling_stops_jump() {
    let state = state_with(empty_map(4, 4), 0);
    // head at 26000, inside the lower half (24576, 28672) of tile row 3
    let mut p = player_at(16384, 26000 + 0x1000, 0, -0x300);
    p.judge_hit_block(2, 3, &state);
    assert_eq!(p.y, 28672 + 0x1000);
    assert_eq!(p.ym, 0);
    assert_eq!(p.flags.0, 0x02);
}

#[test]
fn block_far_away_changes_nothing() {
    let state = state_with(empty_map(4, 4), 0);
    let mut p = player_at(100000, 100000, 7, 9);
    let before = p;
    p.judge_hit_block(2, 3, &state);
    assert_eq!(p, before);
}

#[test]
fn block_twice_is_block_once() {
    let state = state_with(empty_map(4, 4), 0);
    for &(x, y) in &[(23096isize, 24576isize), (16384, 17904), (15000 - 0x1000, 24576), (19000, 20000), (14000, 27000)] {
        let mut once = player_at(x, y, -0x300, 0x300);
        once.judge_hit_block(2, 3, &state);
        let mut twice = once;
        twice.judge_hit_block(2, 3, &state);
        assert_eq!(once, twice);
    }
}

#[test]
fn slope_a_puts_head_on_line() {
    let mut p = player_at(17384, 28000, 0, -0x100);
    p.judge_hit_triangle_a(2, 3);
    assert_eq!(p.y, 26124 + 0x1000);
    assert_eq!(p.ym, 0);
    assert_eq!(p.flags.0, 0x02);
}

#[test]
fn slope_a_halves_toward_zero_left_of_centre() {
    // x - centre = -1001, whose half rounds toward zero to -500
    let mut p = player_at(15383, 28000, 0, 0);
    p.judge_hit_triangle_a(2, 3);
    assert_eq!(p.y, 27124 + 0x1000);
}

#[test]
fn slopes_b_c_d_place_head() {
    let mut b = player_at(17384, 25000, 0, 0);
    b.judge_hit_triangle_b(2, 3);
    assert_eq!(b.y, 24576 - 500 - 0x800 + 0x1000);
    let mut c = player_at(17384, 25000, 0, 0);
    c.judge_hit_triangle_c(2, 3);
    assert_eq!(c.y, 24576 + 500 - 0x800 + 0x1000);
    let mut d = player_at(17384, 25000, 0, 0);
    d.judge_hit_triangle_d(2, 3);
    assert_eq!(d.y, 24576 + 500 + 0x800 + 0x1000);
    assert_eq!(d.flags.0, 0x02);
}

#[test]
fn slope_e_lands_feet_and_marks() {
    // line = 24576 + 500 - 0x800 = 23028; feet at 23500 are below it
    let mut p = player_at(17384, 23500 - 0x1000, 0, 0x200);
    p.judge_hit_triangle_e(2, 3);
    assert_eq!(p.y, 23028 - 0x1000);
    assert_eq!(p.ym, 0);
    assert_eq!(p.flags.0, 0x10000 | 0x20 | 0x08);
}

#[test]
fn slopes_f_g_h_land_feet() {
    let mut f = player_at(17384, 30000 - 0x1000, 0, 0x200);
    f.judge_hit_triangle_f(2, 3);
    assert_eq!(f.y, 24576 + 500 + 0x800 - 0x1000);
    assert_eq!(f.flags.0, 0x20000 | 0x20 | 0x08);
    let mut g = player_at(17384, 30000 - 0x1000, 0, 0x200);
    g.judge_hit_triangle_g(2, 3);
    assert_eq!(g.y, 24576 - 500 + 0x800 - 0x1000);
    assert_eq!(g.flags.0, 0x40000 | 0x10 | 0x08);
    let mut h = player_at(17384, 30000 - 0x1000, 0, 0x200);
    h.judge_hit_triangle_h(2, 3);
    assert_eq!(h.y, 24576 - 500 - 0x800 - 0x1000);
    assert_eq!(h.flags.0, 0x80000 | 0x10 | 0x08);
}

#[test]
fn floor_slope_marks_even_when_far() {
    let mut p = player_at(100000, 100000, 0, 0x200);
    p.judge_hit_triangle_g(2, 3);
    assert_eq!(p.flags.0, 0x40000);
    assert_eq!(p.y, 100000);
    assert_eq!(p.ym, 0x200);
}

#[test]
fn slope_twice_is_slope_once() {
    let mut once = player_at(17384, 28000, 0, -0x100);
    once.judge_hit_triangle_a(2, 3);
    let mut twice = once;
    twice.judge_hit_triangle_a(2, 3);
    assert_eq!(once, twice);
    let mut once = player_at(17384, 23500 - 0x1000, 0, 0x200);
    once.judge_hit_triangle_e(2, 3);
    let mut twice = once;
    twice.judge_hit_triangle_e(2, 3);
    assert_eq!(once, twice);
}

#[test]
fn water_only_sets_flag() {
    let mut p = player_at(16384, 24576, 3, 4);
    p.flags = Flags(0x08);
    p.judge_hit_water(2, 3);
    assert_eq!((p.x, p.y, p.xm, p.ym), (16384, 24576, 3, 4));
    assert_eq!(p.flags.0, 0x108);
    let mut dry = player_at(100000, 24576, 3, 4);
    dry.judge_hit_water(2, 3);
    assert_eq!(dry.flags.0, 0);
}

#[test]
fn map_attribute_lookup() {
    let mut map = empty_map(4, 3);
    map.tiles[2 * 4 + 1] = 1;
    assert_eq!(map.get_attribute(1, 2), 0x41);
    assert_eq!(map.get_attribute(0, 0), 0);
    assert_eq!(map.get_attribute(4, 0), 0);
    assert_eq!(map.get_attribute(0, 3), 0);
    let short = TileMap { width: 4, height: 3, tiles: vec![], attrib: map.attrib };
    assert_eq!(short.get_attribute(1, 1), map.attrib[0]);
}

#[test]
fn map_collisions_land_on_solid_tile_below() {
    let mut map = empty_map(4, 4);
    map.tiles[2 * 4 + 1] = 1;
    let state = state_with(map, 0);
    let mut p = player_at(8192, 10000, 0, 0x300);
    p.tick_map_collisions(&state);
    assert_eq!(p.y, 8192);
    assert_eq!(p.ym, 0);
    assert_eq!(p.flags.0, 0x08);
}

#[test]
fn map_collisions_wet_slope_sets_water() {
    let mut map = empty_map(4, 4);
    map.attrib[4] = 0x70;
    map.tiles[1 * 4 + 1] = 4;
    let state = state_with(map, 0);
    // centre of tile (1, 1), head above the slope line
    let mut p = player_at(8192, 8192 + 0x1000, 0, 0);
    p.tick_map_collisions(&state);
    assert_eq!(p.flags.0 & 0x100, 0x100);
    assert_eq!(p.flags.0 & 0x02, 0x02);
    assert_eq!(p.y, 8192 + 0x800 + 0x1000);
}

#[test]
fn map_collisions_clamp_to_map() {
    let mut map = empty_map(4, 4);
    map.tiles[0] = 3;
    let state = state_with(map, 0);
    // far to the upper left: the tile is clamped to (0, 0), which is water, but the
    // player is far from it
    let mut p = player_at(-50000, -50000, 1, 1);
    p.tick_map_collisions(&state);
    assert_eq!(p.flags.0, 0);
    // inside tile (0, 0) itself
    let mut q = player_at(0, 0, 1, 1);
    q.tick_map_collisions(&state);
    assert_eq!(q.flags.0, 0x100);
    // beyond the right edge: clamped to column 4, which is outside the map
    let mut r = player_at(200000, 0, 1, 1);
    r.tick_map_collisions(&state);
    assert_eq!(r.flags.0, 0);
}

#[test]
fn map_collisions_never_clear_flags() {
    let mut map = empty_map(4, 4);
    map.tiles[2 * 4 + 1] = 1;
    let state = state_with(map, 0);
    let mut p = player_at(8192, 10000, 0, 0x300);
    p.flags = Flags(0xF0F0);
    p.tick_map_collisions(&state);
    assert_eq!(p.flags.0 & 0xF0F0, 0xF0F0);
}
