use vstd::prelude::*;
use crate::common::{Direction, Rect, clamped, clamp_isize};
use crate::npc::{
    NPC, NpcAction, NpcConstants, COND_ALIVE, FLAG_HIT_BOTTOM_WALL, NPC_FLAG_IGNORE_SOLIDITY,
};

verus! {

/// One NPC as the bubble's target search sees it.
#[derive(Clone, Copy, Debug, PartialEq, Eq, Structural)]
pub struct NpcSnapshot {
    pub id: u16,
    pub event_num: u16,
    pub x: isize,
    pub y: isize,
}

/// What the bubble's target search hands to its tick: the id and position of the NPC
/// it flies toward, and the velocity toward it (2.0 pixels per tick along the line
/// between them).
#[derive(Clone, Copy, Debug, PartialEq, Eq, Structural)]
pub struct BubbleToss {
    pub target_id: u16,
    pub target_x: isize,
    pub target_y: isize,
    pub vel_x: isize,
    pub vel_y: isize,
}

/// The event number of the NPC that Misery's bubble goes after.
pub const BUBBLE_TARGET_EVENT: u16 = 1000;

/// `a` and `b` are less than three pixels apart.
pub open spec fn within_three_pixels(a: int, b: int) -> bool {
    -3 * 0x200 < a - b < 3 * 0x200
}

impl NpcSnapshot {
    /// An NPC other than `self_id` that carries the bubble's target event.
    pub open spec fn is_bubble_target(self, self_id: u16) -> bool {
        self.id != self_id && self.event_num == BUBBLE_TARGET_EVENT
    }
}

impl BubbleToss {
    /// Position in range and velocity at most 2.0 pixels per tick on each axis.
    pub open spec fn in_range(self) -> bool {
        &&& crate::player::position_in_range(self.target_x as int)
        &&& crate::player::position_in_range(self.target_y as int)
        &&& -0x400 <= self.vel_x <= 0x400
        &&& -0x400 <= self.vel_y <= 0x400
    }
}

/// Once burst, the bubble never moves faster than 0x5ff sub-pixels per tick on either axis.
pub proof fn lemma_bubble_speed_capped(n: NPC, toss: Option<BubbleToss>)
    requires
        n.action_num == 2,
    ensures
        -0x5ff <= n.bubble_stepped(toss).vel_x <= 0x5ff,
        -0x5ff <= n.bubble_stepped(toss).vel_y <= 0x5ff,
{
}

/// The bubble bursts, with its sound and the death of its target, only within three
/// pixels of its target on both axes, and it is the NPC whose id the bubble holds
/// that is to die.
pub proof fn lemma_bubble_bursts_on_target(n: NPC, toss: Option<BubbleToss>)
    requires
        n.bubble_actions(toss).len() > 0,
    ensures
        ({
            let f = n.bubble_flying(toss);
            &&& within_three_pixels(f.x as int, f.target_x as int)
            &&& within_three_pixels(f.y as int, f.target_y as int)
            &&& n.bubble_actions(toss) == seq![NpcAction::PlaySound(21), NpcAction::Kill(f.action_counter2)]
        }),
{
}

/// Floating Misery bobs at no more than 0x100 sub-pixels per tick and falls at no
/// more than 0x5ff.
pub proof fn lemma_floating_speeds(n: NPC, shake: int)
    ensures
        (n.action_num == 10 || n.action_num == 11) ==> -0x100 <= n.floating_stepped(shake).vel_y <= 0x100,
        n.action_num == 13 ==> n.floating_stepped(shake).vel_y <= 0x5ff,
{
}

/// Floating Misery asks for a new bubble only on the 30th tick of blowing it.
pub proof fn lemma_floating_bubble_on_tick_30(n: NPC)
    requires
        exists|i: int| 0 <= i < n.floating_actions().len() && n.floating_actions()[i] is SpawnNpc,
    ensures
        n.action_num == 16,
        n.action_counter + 1 == 30,
{
}

impl NPC {
    /// The bubble once aimed: the target's id in `action_counter2`, its position in
    /// the target fields, and the velocity toward it; unchanged when nothing was found.
    pub open spec fn bubble_aimed(self, toss: Option<BubbleToss>) -> NPC {
        match toss {
            Some(t) => NPC {
                action_counter2: t.target_id,
                target_x: t.target_x,
                target_y: t.target_y,
                vel_x: t.vel_x,
                vel_y: t.vel_y,
                ..self
            },
            None => self,
        }
    }

    /// A fresh bubble (action 0) with no target id after aiming disappears into
    /// action 0xffff and does nothing more this tick.
    pub open spec fn bubble_gives_up(self, toss: Option<BubbleToss>) -> bool {
        self.action_num == 0 && self.bubble_aimed(toss).action_counter2 == 0
    }

    /// A bubble flying to its target (actions 0 and 1): it alternates frames 0 and 1
    /// every two ticks, and within three pixels of the target it bursts (action 2,
    /// frame 2).
    pub open spec fn bubble_flying(self, toss: Option<BubbleToss>) -> NPC {
        let n = if self.action_num == 0 {
            NPC { action_num: 1, ..self.bubble_aimed(toss) }
        } else {
            self
        };
        let counter = n.anim_counter + 1;
        let n = if counter > 1 {
            let frame = n.anim_num + 1;
            NPC { anim_counter: 0, anim_num: if frame > 1 { 0 } else { frame as u16 }, ..n }
        } else {
            NPC { anim_counter: counter as u16, ..n }
        };
        if within_three_pixels(n.x as int, n.target_x as int) && within_three_pixels(
            n.y as int,
            n.target_y as int,
        ) {
            NPC { action_num: 2, anim_num: 2, ..n }
        } else {
            n
        }
    }

    /// A burst bubble (action 2): it accelerates up and to the left by 0x20 per tick,
    /// up to 0x5ff on each axis, dies once above 8 pixels over the map's top, and
    /// cycles frames 2 and 3 every four ticks.
    pub open spec fn bubble_rising(self) -> NPC {
        let counter = self.anim_counter + 1;
        let frame = self.anim_num + 1;
        NPC {
            vel_x: clamped(self.vel_x - 0x20, -0x5ff, 0x5ff) as isize,
            vel_y: clamped(self.vel_y - 0x20, -0x5ff, 0x5ff) as isize,
            cond: if self.y < -8 * 0x200 { self.cond & !COND_ALIVE } else { self.cond },
            anim_counter: if counter > 3 { 0 } else { counter as u16 },
            anim_num: if counter > 3 { if frame > 3 { 2 } else { frame as u16 } } else { self.anim_num },
            ..self
        }
    }

    /// The bubble after its action step and before it moves.
    pub open spec fn bubble_stepped(self, toss: Option<BubbleToss>) -> NPC {
        if self.action_num == 0 || self.action_num == 1 {
            self.bubble_flying(toss)
        } else if self.action_num == 2 {
            self.bubble_rising()
        } else {
            self
        }
    }

    /// The bubble after a whole tick.
    pub open spec fn bubble_ticked(self, toss: Option<BubbleToss>, constants: &NpcConstants) -> NPC {
        if self.bubble_gives_up(toss) {
            NPC { action_num: 0xffff, ..self.bubble_aimed(toss) }
        } else {
            let n = self.bubble_stepped(toss);
            NPC {
                x: (n.x + n.vel_x) as isize,
                y: (n.y + n.vel_y) as isize,
                anim_rect: constants.n066_misery_bubble@[n.anim_num as int],
                ..n
            }
        }
    }

    /// What a tick of the bubble asks of the game: when it bursts on its target, the
    /// burst sound (21) and the death of the target.
    pub open spec fn bubble_actions(self, toss: Option<BubbleToss>) -> Seq<NpcAction> {
        if (self.action_num == 0 || self.action_num == 1) && !self.bubble_gives_up(toss)
            && self.bubble_flying(toss).action_num == 2 {
            seq![
                NpcAction::PlaySound(21),
                NpcAction::Kill(self.bubble_flying(toss).action_counter2),
            ]
        } else {
            seq![]
        }
    }

    /// What one tick of the bubble may assume: arithmetic stays in range, its frame
    /// indexes the bubble's four sprites, its animation counter can still advance,
    /// and a target handed to a fresh bubble is in range.
    pub open spec fn bubble_can_tick(self, toss: Option<BubbleToss>) -> bool {
        &&& self.in_world()
        &&& self.anim_num < 4
        &&& self.anim_counter < 0xffff
        &&& (self.action_num == 0 ==> (toss matches Some(t) ==> t.in_range()))
    }

    /// Misery floating (NPC 67) after its action step and before it moves:
    /// 0/1 hovers in place, jittering `shake` pixels around where she appeared, and
    /// after 32 ticks goes to 10; 10/11 bobs toward her anchor height at up to 0x100;
    /// 13 falls (up to 0x5ff) until she lands (14); 15/16 blows a bubble at tick 30
    /// and returns to 14 at tick 50; 20/21 rises away and dies above the map;
    /// 25/26 spins through frames 5..=7 and at tick 30 goes to 27, which returns to
    /// 14 at tick 50; other actions do nothing.
    pub open spec fn floating_stepped(self, shake: int) -> NPC {
        if self.action_num == 0 || self.action_num == 1 {
            let n = if self.action_num == 0 {
                NPC { action_num: 1, anim_num: 0, target_x: self.x, target_y: self.y, ..self }
            } else {
                self
            };
            let counter = n.action_counter + 1;
            NPC {
                x: (n.target_x + shake * 0x200) as isize,
                action_counter: counter as u16,
                action_num: if counter >= 32 { 10 } else { n.action_num },
                ..n
            }
        } else if self.action_num == 10 || self.action_num == 11 {
            let n = if self.action_num == 10 {
                NPC { action_num: 1, action_counter: 0, anim_num: 0, vel_y: 0x200, ..self }
            } else {
                self
            };
            let v = n.vel_y + (if n.target_y < n.y { -0x10int } else { 0int }) + (if n.target_y > n.y {
                0x10int
            } else {
                0int
            });
            NPC { vel_y: clamped(v, -0x100, 0x100) as isize, ..n }
        } else if self.action_num == 13 {
            if self.flags & FLAG_HIT_BOTTOM_WALL != 0 {
                NPC {
                    anim_num: 2,
                    vel_y: 0,
                    action_num: 14,
                    npc_flags: self.npc_flags | NPC_FLAG_IGNORE_SOLIDITY,
                    ..self
                }
            } else {
                let v = self.vel_y + 0x40;
                NPC { anim_num: 1, vel_y: if v > 0x5ff { 0x5ff } else { v as isize }, ..self }
            }
        } else if self.action_num == 15 || self.action_num == 16 {
            let n = if self.action_num == 15 {
                NPC { action_num: 16, action_counter: 0, anim_num: 4, ..self }
            } else {
                self
            };
            let counter = n.action_counter + 1;
            NPC {
                action_counter: counter as u16,
                action_num: if counter == 50 { 14 } else { n.action_num },
                ..n
            }
        } else if self.action_num == 20 || self.action_num == 21 {
            let n = if self.action_num == 20 {
                NPC {
                    action_num: 21,
                    anim_num: 0,
                    vel_y: 0,
                    npc_flags: self.npc_flags | NPC_FLAG_IGNORE_SOLIDITY,
                    ..self
                }
            } else {
                self
            };
            NPC {
                vel_y: (n.vel_y - 0x20) as isize,
                cond: if n.y < -8 * 0x200 { n.cond & !COND_ALIVE } else { n.cond },
                ..n
            }
        } else if self.action_num == 25 || self.action_num == 26 {
            let n = if self.action_num == 25 {
                NPC { action_num: 26, action_counter: 0, anim_num: 5, anim_counter: 0, ..self }
            } else {
                self
            };
            let frame = n.anim_num + 1;
            let counter = n.action_counter + 1;
            if counter == 30 {
                NPC { action_num: 27, anim_num: 7, action_counter: counter as u16, ..n }
            } else {
                NPC {
                    anim_num: if frame > 7 { 5 } else { frame as u16 },
                    action_counter: counter as u16,
                    ..n
                }
            }
        } else if self.action_num == 27 {
            let counter = self.action_counter + 1;
            NPC {
                action_counter: counter as u16,
                action_num: if counter == 50 { 14 } else { 27 },
                ..self
            }
        } else {
            self
        }
    }

    /// The sprite of floating Misery for her frame and facing: the first eight
    /// rectangles face left, the next eight right.
    pub open spec fn floating_frame(self, constants: &NpcConstants) -> Rect {
        if self.direction == Direction::Left {
            constants.n067_misery_floating@[self.anim_num as int]
        } else {
            constants.n067_misery_floating@[self.anim_num + 8]
        }
    }

    /// Floating Misery after a whole tick: the action step, one step of motion, the
    /// sprite for her frame, and, while she hovers (action 1) during her first 32
    /// ticks, a sprite that grows by one pixel every two ticks from 16 pixels short.
    pub open spec fn floating_ticked(self, shake: int, constants: &NpcConstants) -> NPC {
        let n = self.floating_stepped(shake);
        let frame = n.floating_frame(constants);
        let moved = NPC { x: (n.x + n.vel_x) as isize, y: (n.y + n.vel_y) as isize, anim_rect: frame, ..n };
        if n.action_num == 1 && n.anim_counter < 32 {
            let counter = n.anim_counter + 1;
            NPC {
                anim_counter: counter as u16,
                anim_rect: Rect { bottom: (counter / 2 + frame.bottom - 16) as usize, ..frame },
                ..moved
            }
        } else {
            moved
        }
    }

    /// What a tick of floating Misery asks of the game: the appearance sound (29)
    /// when she starts, the landing sound (23), the bubble sound (21) with a new
    /// bubble (NPC 66) 16 pixels above her, and the spell sound (101).
    pub open spec fn floating_actions(self) -> Seq<NpcAction> {
        if self.action_num == 0 {
            seq![NpcAction::PlaySound(29)]
        } else if self.action_num == 13 && self.flags & FLAG_HIT_BOTTOM_WALL != 0 {
            seq![NpcAction::PlaySound(23)]
        } else if (self.action_num == 15 || self.action_num == 16) && (if self.action_num == 15 {
            1int
        } else {
            self.action_counter + 1
        }) == 30 {
            seq![
                NpcAction::PlaySound(21),
                NpcAction::SpawnNpc { npc_type: 66, x: self.x, y: (self.y - 16 * 0x200) as isize },
            ]
        } else if (self.action_num == 25 || self.action_num == 26) && (if self.action_num == 25 {
            1int
        } else {
            self.action_counter + 1
        }) == 30 {
            seq![NpcAction::PlaySound(101)]
        } else {
            seq![]
        }
    }

    /// What one tick of floating Misery may assume: arithmetic stays in range, her
    /// frame is one of her eight, and any counter her action advances can advance.
    pub open spec fn floating_can_tick(self, shake: int) -> bool {
        &&& self.in_world()
        &&& self.anim_num <= 7
        &&& -1 <= shake <= 1
        &&& ((self.action_num == 0 || self.action_num == 1 || self.action_num == 16
            || self.action_num == 26 || self.action_num == 27) ==> self.action_counter < 0xffff)
    }

    /// Picks the NPC that the bubble goes after: the first of `others`, in the order
    /// given, that is not this NPC and carries event 1000.
    pub fn find_bubble_target(&self, others: &Vec<NpcSnapshot>) -> (r: Option<usize>)
        ensures
            match r {
                Some(i) => {
                    &&& i < others@.len()
                    &&& others@[i as int].is_bubble_target(self.id)
                    &&& forall|j: int| 0 <= j < i ==> !(#[trigger] others@[j]).is_bubble_target(self.id)
                },
                None => forall|j: int|
                    0 <= j < others@.len() ==> !(#[trigger] others@[j]).is_bubble_target(self.id),
            },
    {
        let mut i: usize = 0;
        while i < others.len()
            invariant
                i <= others@.len(),
                forall|j: int| 0 <= j < i ==> !(#[trigger] others@[j]).is_bubble_target(self.id),
            decreases others@.len() - i,
        {
            if others[i].id != self.id && others[i].event_num == BUBBLE_TARGET_EVENT {
                return Some(i);
            }
            i = i + 1;
        }
        None
    }

    /// One tick of Misery's bubble (NPC 66). `toss` is what the target search found
    /// when the bubble is fresh (action 0); it is not read otherwise.
    pub fn tick_n066_misery_bubble(&mut self, toss: Option<BubbleToss>, constants: &NpcConstants) -> (actions: Vec<NpcAction>)
        requires
            old(self).bubble_can_tick(toss),
        ensures
            *final(self) == old(self).bubble_ticked(toss, constants),
            actions@ == old(self).bubble_actions(toss),
            final(self).anim_num < 4,
    {
        let mut actions: Vec<NpcAction> = Vec::new();
        let ghost n0 = *self;
        match self.action_num {
            0 | 1 => {
                if self.action_num == 0 {
                    match toss {
                        Some(t) => {
                            self.action_counter2 = t.target_id;
                            self.target_x = t.target_x;
                            self.target_y = t.target_y;
                            self.vel_x = t.vel_x;
                            self.vel_y = t.vel_y;
                        },
                        None => {},
                    }
                    if self.action_counter2 == 0 {
                        self.action_num = 0xffff;
                        return actions;
                    }
                    self.action_num = 1;
                }
                self.anim_counter += 1;
                if self.anim_counter > 1 {
                    self.anim_counter = 0;
                    self.anim_num += 1;
                    if self.anim_num > 1 {
                        self.anim_num = 0;
                    }
                }
                let dx = self.x - self.target_x;
                let dy = self.y - self.target_y;
                let adx = if dx < 0 { -dx } else { dx };
                let ady = if dy < 0 { -dy } else { dy };
                if adx < 3 * 0x200 && ady < 3 * 0x200 {
                    self.action_num = 2;
                    self.anim_num = 2;
                    actions.push(NpcAction::PlaySound(21));
                    actions.push(NpcAction::Kill(self.action_counter2));
                }
                assert(*self == n0.bubble_stepped(toss));
            },
            2 => {
                self.vel_x -= 0x20;
                self.vel_y -= 0x20;
                self.vel_x = clamp_isize(self.vel_x, -0x5ff, 0x5ff);
                self.vel_y = clamp_isize(self.vel_y, -0x5ff, 0x5ff);
                if self.y < -8 * 0x200 {
                    self.cond = self.cond & !COND_ALIVE;
                }
                self.anim_counter += 1;
                if self.anim_counter > 3 {
                    self.anim_counter = 0;
                    self.anim_num += 1;
                    if self.anim_num > 3 {
                        self.anim_num = 2;
                    }
                }
                assert(*self == n0.bubble_stepped(toss));
            },
            _ => {},
        }
        self.x += self.vel_x;
        self.y += self.vel_y;
        self.anim_rect = constants.n066_misery_bubble[self.anim_num as usize];
        proof {
            assert(actions@ =~= n0.bubble_actions(toss));
        }
        actions
    }
    /// One tick of floating Misery (NPC 67). `shake` is the game's random draw from
    /// -1..1 that jitters her while she hovers.
    pub fn tick_n067_misery_floating(&mut self, shake: i32, constants: &NpcConstants) -> (actions: Vec<NpcAction>)
        requires
            old(self).floating_can_tick(shake as int),
            constants.wf(),
        ensures
            *final(self) == old(self).floating_ticked(shake as int, constants),
            actions@ == old(self).floating_actions(),
            final(self).anim_num <= 7,
    {
        let mut actions: Vec<NpcAction> = Vec::new();
        let ghost n0 = *self;
        match self.action_num {
            0 | 1 => {
                if self.action_num == 0 {
                    self.action_num = 1;
                    self.anim_num = 0;
                    self.target_x = self.x;
                    self.target_y = self.y;
                    actions.push(NpcAction::PlaySound(29));
                }
                self.x = self.target_x + shake as isize * 0x200;
                self.action_counter += 1;
                if self.action_counter >= 32 {
                    self.action_num = 10;
                }
            },
            10 | 11 => {
                if self.action_num == 10 {
                    self.action_num = 1;
                    self.action_counter = 0;
                    self.anim_num = 0;
                    self.vel_y = 0x200;
                }
                if self.target_y < self.y {
                    self.vel_y -= 0x10;
                }
                if self.target_y > self.y {
                    self.vel_y += 0x10;
                }
                self.vel_y = clamp_isize(self.vel_y, -0x100, 0x100);
            },
            13 => {
                self.anim_num = 1;
                self.vel_y += 0x40;
                if self.vel_y > 0x5ff {
                    self.vel_y = 0x5ff;
                }
                if self.flags & FLAG_HIT_BOTTOM_WALL != 0 {
                    actions.push(NpcAction::PlaySound(23));
                    self.vel_y = 0;
                    self.action_num = 14;
                    self.npc_flags = self.npc_flags | NPC_FLAG_IGNORE_SOLIDITY;
                    self.anim_num = 2;
                }
            },
            15 | 16 => {
                if self.action_num == 15 {
                    self.action_num = 16;
                    self.action_counter = 0;
                    self.anim_num = 4;
                }
                self.action_counter += 1;
                if self.action_counter == 30 {
                    actions.push(NpcAction::PlaySound(21));
                    actions.push(NpcAction::SpawnNpc { npc_type: 66, x: self.x, y: self.y - 16 * 0x200 });
                }
                if self.action_counter == 50 {
                    self.action_num = 14;
                }
            },
            20 | 21 => {
                if self.action_num == 20 {
                    self.action_num = 21;
                    self.anim_num = 0;
                    self.vel_y = 0;
                    self.npc_flags = self.npc_flags | NPC_FLAG_IGNORE_SOLIDITY;
                }
                self.vel_y -= 0x20;
                if self.y < -8 * 0x200 {
                    self.cond = self.cond & !COND_ALIVE;
                }
            },
            25 | 26 => {
                if self.action_num == 25 {
                    self.action_num = 26;
                    self.action_counter = 0;
                    self.anim_num = 5;
                    self.anim_counter = 0;
                }
                self.anim_num += 1;
                if self.anim_num > 7 {
                    self.anim_num = 5;
                }
                self.action_counter += 1;
                if self.action_counter == 30 {
                    actions.push(NpcAction::PlaySound(101));
                    self.action_num = 27;
                    self.anim_num = 7;
                }
            },
            27 => {
                self.action_counter += 1;
                if self.action_counter == 50 {
                    self.action_num = 14;
                }
            },
            _ => {},
        }
        assert(*self == n0.floating_stepped(shake as int));
        assert(actions@ =~= n0.floating_actions());
        self.x += self.vel_x;
        self.y += self.vel_y;
        if self.direction == Direction::Left {
            self.anim_rect = constants.n067_misery_floating[self.anim_num as usize];
        } else {
            self.anim_rect = constants.n067_misery_floating[self.anim_num as usize + 8];
        }
        if self.action_num == 1 && self.anim_counter < 32 {
            self.anim_counter += 1;
            self.anim_rect.bottom = self.anim_counter as usize / 2 + self.anim_rect.bottom as usize - 16;
        }
        actions
    }
}

} // verus!

verus! {

/// The bubble changes its own alive bit only once burst (action 2) and above the
/// map: a burst bubble at or below 8 pixels over the map's top stays as it was, one
/// higher loses its alive bit and keeps every other condition bit; in any other
/// action the condition is untouched.
pub proof fn lemma_bubble_dies_only_above_map(n: NPC, toss: Option<BubbleToss>, constants: &NpcConstants)
    ensures
        (n.action_num != 2 || n.y >= -8 * 0x200) ==> n.bubble_ticked(toss, constants).cond == n.cond,
        (n.action_num == 2 && n.y < -8 * 0x200) ==> n.bubble_ticked(toss, constants).cond & 0x80 == 0,
        (n.action_num == 2 && n.y < -8 * 0x200) ==> n.bubble_ticked(toss, constants).cond | 0x80 == n.cond | 0x80,
{
    let c = n.cond;
    assert((c & !0x80u16) & 0x80u16 == 0) by (bit_vector);
    assert((c & !0x80u16) | 0x80u16 == c | 0x80u16) by (bit_vector);
}

/// The timed ends of floating Misery's actions: after casting (27) and after blowing
/// a bubble (16) she returns to standing (14) exactly on tick 50; spinning (26) turns
/// into casting (27) exactly on tick 30; hovering (1) turns into bobbing (10) from
/// tick 32 on. Until then each keeps its action, and the tick counter advances by one.
pub proof fn lemma_floating_timers(n: NPC, shake: int, constants: &NpcConstants)
    requires
        n.action_counter < 0xffff,
    ensures
        n.action_num == 27 ==> n.floating_ticked(shake, constants).action_counter == n.action_counter + 1,
        n.action_num == 27 ==> (n.floating_ticked(shake, constants).action_num == (if n.action_counter + 1 == 50 {
            14u16
        } else {
            27u16
        })),
        n.action_num == 16 ==> n.floating_ticked(shake, constants).action_counter == n.action_counter + 1,
        n.action_num == 16 ==> (n.floating_ticked(shake, constants).action_num == (if n.action_counter + 1 == 50 {
            14u16
        } else {
            16u16
        })),
        n.action_num == 26 ==> n.floating_ticked(shake, constants).action_counter == n.action_counter + 1,
        n.action_num == 26 ==> (n.floating_ticked(shake, constants).action_num == (if n.action_counter + 1 == 30 {
            27u16
        } else {
            26u16
        })),
        n.action_num == 1 ==> n.floating_ticked(shake, constants).action_counter == n.action_counter + 1,
        n.action_num == 1 ==> (n.floating_ticked(shake, constants).action_num == (if n.action_counter + 1 >= 32 {
            10u16
        } else {
            1u16
        })),
{
}

/// Floating Misery changes her condition only while leaving (20, 21), and then only
/// her alive bit, only above 8 pixels over the map's top.
pub proof fn lemma_floating_dies_only_when_leaving(n: NPC, shake: int, constants: &NpcConstants)
    ensures
        (!(n.action_num == 20 || n.action_num == 21) || n.y >= -8 * 0x200) ==> n.floating_ticked(shake, constants).cond == n.cond,
        ((n.action_num == 20 || n.action_num == 21) && n.y < -8 * 0x200) ==> n.floating_ticked(shake, constants).cond & 0x80 == 0,
        ((n.action_num == 20 || n.action_num == 21) && n.y < -8 * 0x200) ==> n.floating_ticked(shake, constants).cond | 0x80 == n.cond | 0x80,
{
    let c = n.cond;
    assert((c & !0x80u16) & 0x80u16 == 0) by (bit_vector);
    assert((c & !0x80u16) | 0x80u16 == c | 0x80u16) by (bit_vector);
}

} // verus!

verus! {

/// A fresh bubble (action 0) whose target id is 0 after the search (none found and
/// none remembered, or a found target with id 0) becomes action 0xffff, keeps what
/// the search handed it, and neither moves, animates nor asks for anything.
pub proof fn lemma_bubble_without_target(n: NPC, toss: Option<BubbleToss>, constants: &NpcConstants)
    requires
        n.action_num == 0,
        match toss {
            Some(t) => t.target_id == 0,
            None => n.action_counter2 == 0,
        },
    ensures
        n.bubble_ticked(toss, constants) == (match toss {
            Some(t) => NPC {
                action_num: 0xffff,
                action_counter2: 0,
                target_x: t.target_x,
                target_y: t.target_y,
                vel_x: t.vel_x,
                vel_y: t.vel_y,
                ..n
            },
            None => NPC { action_num: 0xffff, ..n },
        }),
        n.bubble_actions(toss) == Seq::<NpcAction>::empty(),
{
}

/// A bubble on its way (actions 0 with a target, and 1): it takes the target and
/// velocity the search handed it when fresh, moves by its velocity, draws the frame
/// it ends on, and bursts (action 2, frame 2, the burst sound and the death of the
/// NPC whose id it holds) exactly when it is less than three pixels from its target
/// on both axes; otherwise it stays in action 1 and asks for nothing.
pub proof fn lemma_bubble_flight(n: NPC, toss: Option<BubbleToss>, constants: &NpcConstants)
    requires
        n.bubble_can_tick(toss),
        n.action_num == 0 || n.action_num == 1,
        !n.bubble_gives_up(toss),
    ensures
        ({
            let r = n.bubble_ticked(toss, constants);
            let (id, tx, ty, vx, vy) = if n.action_num == 0 && toss is Some {
                let t = toss->0;
                (t.target_id, t.target_x, t.target_y, t.vel_x, t.vel_y)
            } else {
                (n.action_counter2, n.target_x, n.target_y, n.vel_x, n.vel_y)
            };
            let near = -0x600 < n.x - tx < 0x600 && -0x600 < n.y - ty < 0x600;
            &&& r.action_counter2 == id && r.target_x == tx && r.target_y == ty
            &&& r.vel_x == vx && r.vel_y == vy
            &&& r.x == n.x + vx && r.y == n.y + vy
            &&& r.cond == n.cond
            &&& r.anim_rect == constants.n066_misery_bubble@[r.anim_num as int]
            &&& near ==> r.action_num == 2 && r.anim_num == 2
                && n.bubble_actions(toss) == seq![NpcAction::PlaySound(21), NpcAction::Kill(id)]
            &&& !near ==> r.action_num == 1 && n.bubble_actions(toss) == Seq::<NpcAction>::empty()
            &&& !near ==> r.anim_counter == (if n.anim_counter + 1 > 1 { 0 } else { n.anim_counter + 1 })
            &&& !near ==> r.anim_num == (if n.anim_counter + 1 > 1 {
                if n.anim_num + 1 > 1 { 0 } else { n.anim_num + 1 }
            } else {
                n.anim_num as int
            })
        }),
{
}

/// A burst bubble (action 2) speeds up by 0x20 up and to the left each tick, up to
/// 0x5ff in each direction, moves by its new velocity, cycles frames 2 and 3 every
/// four ticks, and asks for nothing.
pub proof fn lemma_bubble_rise(n: NPC, toss: Option<BubbleToss>, constants: &NpcConstants)
    requires
        n.bubble_can_tick(toss),
        n.action_num == 2,
    ensures
        ({
            let r = n.bubble_ticked(toss, constants);
            let vx = n.vel_x - 0x20;
            let vy = n.vel_y - 0x20;
            &&& r.vel_x == (if vx < -0x5ff { -0x5ff } else if vx > 0x5ff { 0x5ff } else { vx })
            &&& r.vel_y == (if vy < -0x5ff { -0x5ff } else if vy > 0x5ff { 0x5ff } else { vy })
            &&& r.x == n.x + r.vel_x && r.y == n.y + r.vel_y
            &&& r.action_num == 2
            &&& r.anim_counter == (if n.anim_counter + 1 > 3 { 0 } else { n.anim_counter + 1 })
            &&& r.anim_num == (if n.anim_counter + 1 > 3 {
                if n.anim_num + 1 > 3 { 2 } else { n.anim_num + 1 }
            } else {
                n.anim_num as int
            })
            &&& r.anim_rect == constants.n066_misery_bubble@[r.anim_num as int]
            &&& n.bubble_actions(toss) == Seq::<NpcAction>::empty()
        }),
{
}

/// In any other action the bubble only moves by its velocity and draws its frame.
pub proof fn lemma_bubble_idle(n: NPC, toss: Option<BubbleToss>, constants: &NpcConstants)
    requires
        n.action_num > 2,
    ensures
        n.bubble_ticked(toss, constants) == (NPC {
            x: (n.x + n.vel_x) as isize,
            y: (n.y + n.vel_y) as isize,
            anim_rect: constants.n066_misery_bubble@[n.anim_num as int],
            ..n
        }),
        n.bubble_actions(toss) == Seq::<NpcAction>::empty(),
{
}

/// What floating Misery asks of the game, by action: the appearance sound (29) when
/// she starts (action 0), the landing sound (23) when falling (13) onto a floor, the
/// bubble sound (21) and a new bubble (type 66) 16 pixels above her on the 30th tick
/// of blowing (15, 16), the spell sound (101) on the 30th tick of spinning (25, 26),
/// and nothing otherwise.
pub proof fn lemma_floating_requests(n: NPC)
    ensures
        n.action_num == 0 ==> n.floating_actions() == seq![NpcAction::PlaySound(29)],
        n.action_num == 13 ==> n.floating_actions() == (if n.flags & 0x08 != 0 {
            seq![NpcAction::PlaySound(23)]
        } else {
            Seq::<NpcAction>::empty()
        }),
        n.action_num == 16 ==> n.floating_actions() == (if n.action_counter + 1 == 30 {
            seq![
                NpcAction::PlaySound(21),
                NpcAction::SpawnNpc { npc_type: 66, x: n.x, y: (n.y - 16 * 0x200) as isize },
            ]
        } else {
            Seq::<NpcAction>::empty()
        }),
        n.action_num == 26 ==> n.floating_actions() == (if n.action_counter + 1 == 30 {
            seq![NpcAction::PlaySound(101)]
        } else {
            Seq::<NpcAction>::empty()
        }),
        (n.action_num == 15 || n.action_num == 25) ==> n.floating_actions() == Seq::<NpcAction>::empty(),
        !(n.action_num == 0 || n.action_num == 13 || n.action_num == 15 || n.action_num == 16
            || n.action_num == 25 || n.action_num == 26) ==> n.floating_actions() == Seq::<NpcAction>::empty(),
{
}

/// Floating Misery's motion by action: hovering (0, 1) holds her `shake` pixels from
/// her anchor column (her position when she started); bobbing (10, 11) turns her
/// vertical speed 0x10 toward her anchor height, starting from 0x200 and held within
/// 0x100; falling (13) adds 0x40 up to 0x5ff, and a floor stops her; leaving (20,
/// 21) speeds her up by 0x20, from rest when she starts. She then moves by her
/// velocity.
pub proof fn lemma_floating_motion(n: NPC, shake: int, constants: &NpcConstants)
    requires
        n.floating_can_tick(shake),
    ensures
        ({
            let r = n.floating_ticked(shake, constants);
            &&& r.y == n.y + r.vel_y
            &&& (n.action_num == 0 || n.action_num == 1) ==> r.x == (if n.action_num == 0 { n.x as int } else {
                n.target_x as int
            }) + shake * 0x200 + n.vel_x
            &&& n.action_num == 0 ==> r.target_x == n.x && r.target_y == n.y
            &&& !(n.action_num == 0 || n.action_num == 1) ==> r.x == n.x + n.vel_x
            &&& (n.action_num == 10 || n.action_num == 11) ==> ({
                let v0 = if n.action_num == 10 { 0x200 } else { n.vel_y as int };
                let v = v0 + (if n.target_y < n.y { -0x10int } else if n.target_y > n.y { 0x10int } else { 0int });
                r.vel_y == (if v < -0x100 { -0x100 } else if v > 0x100 { 0x100 } else { v })
            })
            &&& n.action_num == 13 ==> r.vel_y == (if n.flags & 0x08 != 0 {
                0
            } else if n.vel_y + 0x40 > 0x5ff {
                0x5ff
            } else {
                n.vel_y + 0x40
            })
            &&& n.action_num == 13 ==> r.action_num == (if n.flags & 0x08 != 0 { 14u16 } else { 13u16 })
            &&& (n.action_num == 20 || n.action_num == 21) ==> r.vel_y == (if n.action_num == 20 { 0 } else {
                n.vel_y as int
            }) - 0x20
            &&& (n.action_num == 20 || n.action_num == 21) ==> r.action_num == 21
        }),
{
}

/// The sprite floating Misery ends a tick with is her frame, from the first eight
/// rectangles when she faces left and the next eight otherwise; while she hovers
/// (ending in action 1) during her first 32 ticks the sprite instead grows by a pixel
/// every two ticks from 16 pixels short. Frames stay within her eight.
pub proof fn lemma_floating_sprite(n: NPC, shake: int, constants: &NpcConstants)
    requires
        n.anim_num <= 7,
    ensures
        ({
            let r = n.floating_ticked(shake, constants);
            let frame = if r.direction == Direction::Left {
                constants.n067_misery_floating@[r.anim_num as int]
            } else {
                constants.n067_misery_floating@[r.anim_num + 8]
            };
            &&& r.anim_num <= 7
            &&& r.direction == n.direction
            &&& (r.action_num == 1 && n.anim_counter < 32) ==> r.anim_rect == (Rect {
                bottom: ((n.anim_counter + 1) / 2 + frame.bottom - 16) as usize,
                ..frame
            }) && r.anim_counter == n.anim_counter + 1
            &&& !(r.action_num == 1 && n.anim_counter < 32) ==> r.anim_rect == frame
        }),
{
}

/// Spinning (25, 26) cycles frames 5, 6, 7 and on its 30th tick casts (27, frame 7);
/// blowing a bubble (15, 16) shows frame 4.
pub proof fn lemma_floating_frames(n: NPC, shake: int, constants: &NpcConstants)
    requires
        n.anim_num <= 7,
        n.action_counter < 0xffff,
    ensures
        ({
            let r = n.floating_ticked(shake, constants);
            let counter = if n.action_num == 25 { 1 } else { n.action_counter + 1 };
            let start = if n.action_num == 25 { 5 } else { n.anim_num as int };
            &&& (n.action_num == 25 || n.action_num == 26) ==> r.action_counter == counter
            &&& (n.action_num == 25 || n.action_num == 26) ==> (if counter == 30 {
                r.action_num == 27 && r.anim_num == 7
            } else {
                r.action_num == 26 && r.anim_num == (if start + 1 > 7 { 5 } else { start + 1 })
            })
            &&& n.action_num == 15 ==> r.action_num == 16 && r.action_counter == 1 && r.anim_num == 4
            &&& n.action_num == 16 ==> r.anim_num == n.anim_num
        }),
{
}

} // verus!
