use doukutsu_logic::common::{Direction, Rect};
use doukutsu_logic::npc::misery::{BubbleToss, NpcSnapshot};
use doukutsu_logic::npc::{NpcAction, NpcConstants, NPC};

fn npc_at(x: isize, y: isize) -> NPC {
    NPC {
        id: 7,
        npc_type: 66,
        x,
        y,
        vel_x: 0,
        vel_y: 0,
        target_x: 0,
        target_y: 0,
        action_num: 0,
        action_counter: 0,
        action_counter2: 0,
        anim_num: 0,
        anim_counter: 0,
        event_num: 0,
        direction: Direction::Left,
        cond: 0x80,
        flags: 0,
        npc_flags: 0,
        anim_rect: Rect { left: 0, top: 0, right: 0, bottom: 0 },
    }
}

fn constants() -> NpcConstants {
    let mut bubble = [Rect { left: 0, top: 0, right: 0, bottom: 0 }; 4];
    for i in 0..4 {
        bubble[i] = Rect { left: 192 + 16 * i, top: 0, right: 208 + 16 * i, bottom: 16 };
    }
    let mut floating = [Rect { left: 0, top: 0, right: 0, bottom: 0 }; 16];
    for i in 0..16 {
        floating[i] = Rect { left: 16 * (i % 8), top: 16 * (i / 8), right: 16 * (i % 8) + 16, bottom: 16 * (i / 8) + 16 };
    }
    NpcConstants { n066_misery_bubble: bubble, n067_misery_floating: floating }
}

#[test]
fn bubble_target_is_first_other_with_event() {
    let me = npc_at(0, 0);
    let others = vec![
        NpcSnapshot { id: 7, event_num: 1000, x: 1, y: 1 },
        NpcSnapshot { id: 3, event_num: 999, x: 2, y: 2 },
        NpcSnapshot { id: 4, event_num: 1000, x: 3, y: 3 },
        NpcSnapshot { id: 5, event_num: 1000, x: 4, y: 4 },
    ];
    assert_eq!(me.find_bubble_target(&others), Some(2));
    assert_eq!(me.find_bubble_target(&others[..2].to_vec()), None);
    assert_eq!(me.find_bubble_target(&vec![]), None);
}

#[test]
fn bubble_aims_at_target_and_flies() {
    let c = constants();
    let mut n = npc_at(0, 0);
    let toss = BubbleToss { target_id: 5, target_x: 10000, target_y: 20000, vel_x: 0x400, vel_y: 0x100 };
    let actions = n.tick_n066_misery_bubble(Some(toss), &c);
    assert!(actions.is_empty());
    assert_eq!(n.action_num, 1);
    assert_eq!(n.action_counter2, 5);
    assert_eq!((n.target_x, n.target_y), (10000, 20000));
    assert_eq!((n.x, n.y), (0x400, 0x100));
    assert_eq!(n.anim_counter, 1);
    assert_eq!(n.anim_num, 0);
    assert_eq!(n.anim_rect, c.n066_misery_bubble[0]);
}

#[test]
fn bubble_without_target_gives_up() {
    let c = constants();
    let mut n = npc_at(100, 200);
    n.vel_x = 5;
    let actions = n.tick_n066_misery_bubble(None, &c);
    assert!(actions.is_empty());
    assert_eq!(n.action_num, 0xffff);
    assert_eq!((n.x, n.y), (100, 200));
    assert_eq!(n.anim_rect, Rect { left: 0, top: 0, right: 0, bottom: 0 });
}

#[test]
fn bubble_bursts_near_target() {
    let c = constants();
    let mut n = npc_at(1000, 1000);
    n.action_num = 1;
    n.action_counter2 = 9;
    n.target_x = 1000 + 0x5ff;
    n.target_y = 1000 - 0x5ff;
    n.anim_counter = 1;
    n.vel_x = 3;
    let actions = n.tick_n066_misery_bubble(None, &c);
    assert_eq!(actions, vec![NpcAction::PlaySound(21), NpcAction::Kill(9)]);
    assert_eq!(n.action_num, 2);
    assert_eq!(n.anim_num, 2);
    assert_eq!(n.anim_counter, 0);
    assert_eq!(n.x, 1003);
    assert_eq!(n.anim_rect, c.n066_misery_bubble[2]);
}

#[test]
fn bubble_not_burst_at_three_pixels() {
    let c = constants();
    let mut n = npc_at(1000, 1000);
    n.action_num = 1;
    n.action_counter2 = 9;
    n.target_x = 1000 + 0x600;
    n.target_y = 1000;
    let actions = n.tick_n066_misery_bubble(None, &c);
    assert!(actions.is_empty());
    assert_eq!(n.action_num, 1);
}

#[test]
fn burst_bubble_rises_capped_and_dies_above_map() {
    let c = constants();
    let mut n = npc_at(0, -5000);
    n.action_num = 2;
    n.anim_num = 3;
    n.anim_counter = 3;
    n.vel_x = 0x5f0;
    n.vel_y = -0x5f0;
    let actions = n.tick_n066_misery_bubble(None, &c);
    assert!(actions.is_empty());
    assert_eq!(n.vel_x, 0x5d0);
    assert_eq!(n.vel_y, -0x5ff);
    assert_eq!(n.cond & 0x80, 0);
    assert_eq!(n.anim_num, 2);
    assert_eq!(n.anim_counter, 0);
    assert_eq!((n.x, n.y), (0x5d0, -5000 - 0x5ff));
}

#[test]
fn floating_appears_with_sound_and_jitters() {
    let c = constants();
    let mut n = npc_at(3000, 4000);
    n.npc_type = 67;
    n.anim_num = 5;
    let actions = n.tick_n067_misery_floating(-1, &c);
    assert_eq!(actions, vec![NpcAction::PlaySound(29)]);
    assert_eq!(n.action_num, 1);
    assert_eq!((n.target_x, n.target_y), (3000, 4000));
    assert_eq!(n.x, 3000 - 0x200);
    assert_eq!(n.action_counter, 1);
    assert_eq!(n.anim_num, 0);
    // hovering grows the sprite from 16 pixels short
    assert_eq!(n.anim_counter, 1);
    assert_eq!(n.anim_rect.bottom, 1 / 2 + c.n067_misery_floating[0].bottom - 16);
}

#[test]
fn floating_hover_ends_after_32_ticks() {
    let c = constants();
    let mut n = npc_at(3000, 4000);
    n.action_num = 1;
    n.action_counter = 31;
    n.anim_counter = 40;
    let actions = n.tick_n067_misery_floating(0, &c);
    assert!(actions.is_empty());
    assert_eq!(n.action_num, 10);
    assert_eq!(n.anim_rect, c.n067_misery_floating[0]);
}

#[test]
fn floating_bobs_toward_anchor() {
    let c = constants();
    let mut n = npc_at(3000, 4000);
    n.action_num = 10;
    n.target_y = 3000;
    let actions = n.tick_n067_misery_floating(0, &c);
    assert!(actions.is_empty());
    assert_eq!(n.action_num, 1);
    assert_eq!(n.vel_y, 0x100);
    assert_eq!(n.y, 4000 + 0x100);
    let mut m = npc_at(3000, 4000);
    m.action_num = 11;
    m.target_y = 3000;
    m.vel_y = -0x50;
    m.tick_n067_misery_floating(0, &c);
    assert_eq!(m.vel_y, -0x60);
}

#[test]
fn floating_lands_with_sound() {
    let c = constants();
    let mut n = npc_at(3000, 4000);
    n.action_num = 13;
    n.vel_y = 0x300;
    n.flags = 0x08;
    n.direction = Direction::Right;
    let actions = n.tick_n067_misery_floating(0, &c);
    assert_eq!(actions, vec![NpcAction::PlaySound(23)]);
    assert_eq!(n.action_num, 14);
    assert_eq!(n.vel_y, 0);
    assert_eq!(n.anim_num, 2);
    assert_eq!(n.npc_flags & 0x08, 0x08);
    assert_eq!(n.anim_rect, c.n067_misery_floating[10]);
    let mut f = npc_at(3000, 4000);
    f.action_num = 13;
    f.vel_y = 0x5f0;
    f.tick_n067_misery_floating(0, &c);
    assert_eq!(f.vel_y, 0x5ff);
    assert_eq!(f.anim_num, 1);
}

#[test]
fn floating_blows_bubble_on_tick_30() {
    let c = constants();
    let mut n = npc_at(3000, 40000);
    n.action_num = 16;
    n.action_counter = 29;
    let actions = n.tick_n067_misery_floating(0, &c);
    assert_eq!(
        actions,
        vec![NpcAction::PlaySound(21), NpcAction::SpawnNpc { npc_type: 66, x: 3000, y: 40000 - 0x2000 }]
    );
    assert_eq!(n.action_num, 16);
    let mut m = npc_at(3000, 40000);
    m.action_num = 16;
    m.action_counter = 49;
    assert!(m.tick_n067_misery_floating(0, &c).is_empty());
    assert_eq!(m.action_num, 14);
}

#[test]
fn floating_spins_and_casts() {
    let c = constants();
    let mut n = npc_at(3000, 4000);
    n.action_num = 25;
    n.anim_num = 3;
    n.anim_counter = 9;
    n.tick_n067_misery_floating(0, &c);
    assert_eq!((n.action_num, n.anim_num, n.action_counter, n.anim_counter), (26, 6, 1, 0));
    n.anim_num = 7;
    n.tick_n067_misery_floating(0, &c);
    assert_eq!(n.anim_num, 5);
    n.action_counter = 29;
    let actions = n.tick_n067_misery_floating(0, &c);
    assert_eq!(actions, vec![NpcAction::PlaySound(101)]);
    assert_eq!((n.action_num, n.anim_num), (27, 7));
}

#[test]
fn floating_leaves_and_dies_above_map() {
    let c = constants();
    let mut n = npc_at(3000, -5000);
    n.action_num = 20;
    n.vel_y = 0x300;
    n.tick_n067_misery_floating(0, &c);
    assert_eq!(n.action_num, 21);
    assert_eq!(n.vel_y, -0x20);
    assert_eq!(n.cond & 0x80, 0);
    assert_eq!(n.npc_flags & 0x08, 0x08);
    assert_eq!(n.y, -5000 - 0x20);
}
