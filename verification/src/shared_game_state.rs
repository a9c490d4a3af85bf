use vstd::prelude::*;
use bitvec::vec::BitVec;
use crate::caret::{Caret, CaretType};
use crate::common::{Direction, KeyState};
use crate::npc::NPC;

verus! {

/// Number of game flags the scripts can set.
pub const GAME_FLAG_COUNT: usize = 8000;

/// The game flags, one bit each, held in a `bitvec::vec::BitVec`.
#[verifier::external_body]
pub struct GameFlags {
    bits: BitVec,
}

/// The bits that `flags` holds, in order.
pub uninterp spec fn flag_bits(flags: GameFlags) -> Seq<bool>;

impl GameFlags {
    /// Calls `bitvec::vec::BitVec::repeat(false, len)`, which allocates room for `len`
    /// bits and fills the storage with zeros: `len` bits, all clear. It panics when
    /// `len` exceeds what a bit-span can address (`usize::MAX >> 3`), which `requires`
    /// keeps well clear of.
    #[verifier::external_body]
    pub(crate) fn cleared(len: usize) -> (r: GameFlags)
        requires
            len <= 0x1000_0000,
        ensures
            flag_bits(r) == Seq::new(len as nat, |i: int| false),
    {
        GameFlags { bits: BitVec::repeat(false, len) }
    }

    /// Calls `Index<usize>` on the `bitvec::slice::BitSlice` behind the flags, which
    /// returns the bit at `index` and panics when `index` is not below the length.
    #[verifier::external_body]
    pub(crate) fn bit(&self, index: usize) -> (r: bool)
        requires
            index < flag_bits(*self).len(),
        ensures
            r == flag_bits(*self)[index as int],
    {
        self.bits[index]
    }
}

/// The bits of the script's control flags.
#[derive(Clone, Copy, Debug, PartialEq, Eq, Structural)]
pub struct ControlFlags(pub u16);

/// The state of the screen fade.
#[derive(Clone, Copy, Debug, PartialEq, Eq, Structural)]
pub enum FadeState {
    Visible,
    FadeIn,
    Hidden,
    FadeOut,
}

/// A random number generator, by the seed it was started from.
#[derive(Clone, Copy, Debug, PartialEq, Eq, Structural)]
pub struct RNG(pub i32);

impl RNG {
    pub fn new(seed: i32) -> (r: RNG)
        ensures
            r == RNG(seed),
    {
        RNG(seed)
    }
}

/// Which game data the files found belong to.
#[derive(Clone, Copy, Debug, PartialEq, Eq, Structural)]
pub enum DataFlavor {
    /// Cave Story+ for PC (`/base/Nicalis.bmp`).
    CaveStoryPlusPc,
    /// Cave Story+ for Switch (`/base/lighting.tbl`).
    CaveStoryPlusSwitch,
    /// CSE2E (`/mrmap.bin`).
    Cse2e,
    /// NXEngine-evo (`/stage.dat`).
    NxEngineEvo,
    /// The freeware release.
    Freeware,
}

impl DataFlavor {
    /// Picks the flavour from which marker files exist, the first match winning in
    /// the order Cave Story+ PC, Cave Story+ Switch, CSE2E, NXEngine-evo.
    pub fn detect(has_nicalis_bmp: bool, has_lighting_tbl: bool, has_mrmap: bool, has_stage_dat: bool) -> (r: DataFlavor)
        ensures
            r == (if has_nicalis_bmp {
                DataFlavor::CaveStoryPlusPc
            } else if has_lighting_tbl {
                DataFlavor::CaveStoryPlusSwitch
            } else if has_mrmap {
                DataFlavor::Cse2e
            } else if has_stage_dat {
                DataFlavor::NxEngineEvo
            } else {
                DataFlavor::Freeware
            }),
    {
        if has_nicalis_bmp {
            DataFlavor::CaveStoryPlusPc
        } else if has_lighting_tbl {
            DataFlavor::CaveStoryPlusSwitch
        } else if has_mrmap {
            DataFlavor::Cse2e
        } else if has_stage_dat {
            DataFlavor::NxEngineEvo
        } else {
            DataFlavor::Freeware
        }
    }

    pub open spec fn spec_is_plus(self) -> bool {
        self == DataFlavor::CaveStoryPlusPc || self == DataFlavor::CaveStoryPlusSwitch
    }

    /// Cave Story+ data lives under `/base/`, everything else at the root.
    pub fn base_path(&self) -> (r: &'static str)
        ensures
            self.spec_is_plus() ==> r@ == "/base/"@,
            !self.spec_is_plus() ==> r@ == "/"@,
    {
        match self {
            DataFlavor::CaveStoryPlusPc | DataFlavor::CaveStoryPlusSwitch => "/base/",
            _ => "/",
        }
    }

    /// Cave Story+ (both platforms) takes the Cave Story+ engine constants.
    pub fn uses_plus_patches(&self) -> (r: bool)
        ensures
            r == self.spec_is_plus(),
    {
        match self {
            DataFlavor::CaveStoryPlusPc | DataFlavor::CaveStoryPlusSwitch => true,
            _ => false,
        }
    }

    /// Only the Switch release takes the Switch engine constants on top.
    pub fn uses_switch_patches(&self) -> (r: bool)
        ensures
            r == (*self == DataFlavor::CaveStoryPlusSwitch),
    {
        match self {
            DataFlavor::CaveStoryPlusSwitch => true,
            _ => false,
        }
    }
}

/// Keys that are down now and were up at the previous update.
pub open spec fn newly_pressed(now: u16, before: u16) -> u16 {
    now & !before
}

/// The game state shared by every scene: script and game flags, the screen fade,
/// the two random generators, the screen quake, the visual effects, the keys,
/// the NPCs created this tick, where the game data lives, and the debug and
/// shutdown switches.
pub struct SharedGameState {
    pub control_flags: ControlFlags,
    pub game_flags: GameFlags,
    pub fade_state: FadeState,
    pub game_rng: RNG,
    pub effect_rng: RNG,
    pub quake_counter: u16,
    pub carets: Vec<Caret>,
    pub key_state: KeyState,
    pub key_trigger: KeyState,
    pub new_npcs: Vec<NPC>,
    pub base_path: String,
    pub god_mode: bool,
    pub speed_hack: bool,
    pub shutdown: bool,
    /// The keys as they were at the last `update_key_trigger`.
    pub key_old: u16,
}

/// The effects of `s` that are still alive, in order.
pub open spec fn living_carets(s: Seq<Caret>) -> Seq<Caret>
    decreases s.len(),
{
    if s.len() == 0 {
        seq![]
    } else if s.last().spec_is_dead() {
        living_carets(s.drop_last())
    } else {
        living_carets(s.drop_last()).push(s.last())
    }
}

/// The trigger that `update_key_trigger` computes is exactly the keys newly pressed.
pub proof fn lemma_trigger_is_newly_pressed(now: u16, before: u16)
    ensures
        (now ^ before) & now == newly_pressed(now, before),
{
    assert((now ^ before) & now == now & !before) by (bit_vector);
}

/// A key counts as triggered only while it is held, and keys held across two
/// updates trigger nothing the second time.
pub proof fn lemma_trigger_only_new_presses(now: u16, before: u16)
    ensures
        newly_pressed(now, before) & !now == 0,
        newly_pressed(now, now) == 0,
{
    assert((now & !before) & !now == 0) by (bit_vector);
    assert(now & !now == 0) by (bit_vector);
}

/// Every effect that survives `tick_carets` is alive, there are no more of them
/// than before, and a living effect is kept at the end.
pub proof fn lemma_living_carets(s: Seq<Caret>)
    ensures
        forall|i: int| 0 <= i < living_carets(s).len() ==> !(#[trigger] living_carets(s)[i]).spec_is_dead(),
        living_carets(s).len() <= s.len(),
        (forall|i: int| 0 <= i < s.len() ==> !(#[trigger] s[i]).spec_is_dead()) ==> living_carets(s) == s,
    decreases s.len(),
{
    if s.len() > 0 {
        lemma_living_carets(s.drop_last());
        if forall|i: int| 0 <= i < s.len() ==> !(#[trigger] s[i]).spec_is_dead() {
            assert forall|i: int| 0 <= i < s.drop_last().len() implies !(#[trigger] s.drop_last()[i]).spec_is_dead() by {
                assert(s.drop_last()[i] == s[i]);
            }
            assert(!s[s.len() - 1].spec_is_dead());
            assert(s.drop_last().push(s.last()) =~= s);
        }
    }
}

impl SharedGameState {
    /// `self` and `other` agree on everything but the effects, the keys and the
    /// speed and shutdown switches.
    pub open spec fn same_core(&self, other: &SharedGameState) -> bool {
        &&& self.control_flags == other.control_flags
        &&& self.game_flags == other.game_flags
        &&& self.fade_state == other.fade_state
        &&& self.game_rng == other.game_rng
        &&& self.effect_rng == other.effect_rng
        &&& self.quake_counter == other.quake_counter
        &&& self.new_npcs@ == other.new_npcs@
        &&& self.base_path@ == other.base_path@
        &&& self.god_mode == other.god_mode
    }

    /// `self` and `other` agree on the keys and on what the key trigger remembers.
    pub open spec fn same_keys(&self, other: &SharedGameState) -> bool {
        &&& self.key_state == other.key_state
        &&& self.key_trigger == other.key_trigger
        &&& self.key_old == other.key_old
    }

    /// The state at start-up for the game data of `flavor`: nothing set, fade
    /// hidden, the game generator seeded with 0 and the effect generator with
    /// `effect_seed`.
    pub fn new(flavor: DataFlavor, effect_seed: i32) -> (s: SharedGameState)
        ensures
            s.base_path@ == (if flavor.spec_is_plus() { "/base/"@ } else { "/"@ }),
            s.control_flags.0 == 0,
            flag_bits(s.game_flags) == Seq::new(GAME_FLAG_COUNT as nat, |i: int| false),
            s.fade_state == FadeState::Hidden,
            s.game_rng == RNG(0),
            s.effect_rng == RNG(effect_seed),
            s.quake_counter == 0,
            s.carets@.len() == 0,
            s.key_state.0 == 0,
            s.key_trigger.0 == 0,
            s.key_old == 0,
            s.new_npcs@.len() == 0,
            !s.god_mode,
            !s.speed_hack,
            !s.shutdown,
    {
        SharedGameState {
            control_flags: ControlFlags(0),
            game_flags: GameFlags::cleared(GAME_FLAG_COUNT),
            fade_state: FadeState::Hidden,
            game_rng: RNG::new(0),
            effect_rng: RNG::new(effect_seed),
            quake_counter: 0,
            carets: Vec::new(),
            key_state: KeyState(0),
            key_trigger: KeyState(0),
            new_npcs: Vec::new(),
            base_path: flavor.base_path().to_owned(),
            god_mode: false,
            speed_hack: false,
            shutdown: false,
            key_old: 0,
        }
    }

    /// Returns the game to the state of a new game: every flag, the fade, the game
    /// generator, the quake, the effects, the keys and the pending NPCs are reset;
    /// the effect generator and the debug and shutdown switches are kept.
    pub fn reset(&mut self)
        ensures
            final(self).control_flags.0 == 0,
            flag_bits(final(self).game_flags) == Seq::new(GAME_FLAG_COUNT as nat, |i: int| false),
            final(self).fade_state == FadeState::Hidden,
            final(self).game_rng == RNG(0),
            final(self).quake_counter == 0,
            final(self).carets@.len() == 0,
            final(self).key_state.0 == 0,
            final(self).key_trigger.0 == 0,
            final(self).key_old == 0,
            final(self).new_npcs@.len() == 0,
            final(self).effect_rng == old(self).effect_rng,
            final(self).base_path@ == old(self).base_path@,
            final(self).god_mode == old(self).god_mode,
            final(self).speed_hack == old(self).speed_hack,
            final(self).shutdown == old(self).shutdown,
    {
        self.control_flags.0 = 0;
        self.game_flags = GameFlags::cleared(GAME_FLAG_COUNT);
        self.fade_state = FadeState::Hidden;
        self.game_rng = RNG::new(0);
        self.quake_counter = 0;
        self.carets.clear();
        self.key_state.0 = 0;
        self.key_trigger.0 = 0;
        self.key_old = 0;
        self.new_npcs.clear();
    }

    /// Whether game flag `id` is set.
    pub fn game_flag(&self, id: usize) -> (r: bool)
        requires
            id < flag_bits(self.game_flags).len(),
        ensures
            r == flag_bits(self.game_flags)[id as int],
    {
        self.game_flags.bit(id)
    }

    /// Records which keys went down since the last update: `key_trigger` holds the
    /// keys down now that were up then, and the current keys become the reference
    /// for the next update.
    pub fn update_key_trigger(&mut self)
        ensures
            final(self).key_trigger.0 == (old(self).key_state.0 ^ old(self).key_old) & old(self).key_state.0,
            final(self).key_old == old(self).key_state.0,
            final(self).key_state == old(self).key_state,
            final(self).same_core(old(self)),
            final(self).carets@ == old(self).carets@,
            final(self).speed_hack == old(self).speed_hack,
            final(self).shutdown == old(self).shutdown,
    {
        let mut trigger = self.key_state.0 ^ self.key_old;
        trigger &= self.key_state.0;
        self.key_old = self.key_state.0;
        self.key_trigger = KeyState(trigger);
    }

    /// Advances every effect by one step of `tick`, then drops the effects that
    /// have ended, keeping the order of the others.
    pub fn tick_carets<F: Fn(Caret) -> Caret>(&mut self, tick: F)
        requires
            forall|c: Caret| call_requires(tick, (c,)),
        ensures
            exists|ticked: Seq<Caret>|
                {
                    &&& ticked.len() == old(self).carets@.len()
                    &&& forall|i: int|
                        0 <= i < ticked.len() ==> call_ensures(tick, (old(self).carets@[i],), #[trigger] ticked[i])
                    &&& final(self).carets@ == living_carets(ticked)
                },
            final(self).same_core(old(self)),
            final(self).same_keys(old(self)),
            final(self).speed_hack == old(self).speed_hack,
            final(self).shutdown == old(self).shutdown,
    {
        let mut kept: Vec<Caret> = Vec::new();
        let ghost mut ticked: Seq<Caret> = seq![];
        let n = self.carets.len();
        let mut i: usize = 0;
        while i < n
            invariant
                n == self.carets@.len(),
                self.carets@ == old(self).carets@,
                i <= n,
                ticked.len() == i,
                forall|j: int| 0 <= j < i ==> call_ensures(tick, (self.carets@[j],), #[trigger] ticked[j]),
                forall|c: Caret| call_requires(tick, (c,)),
                kept@ == living_carets(ticked),
            decreases n - i,
        {
            let c = tick(self.carets[i]);
            proof {
                let t0 = ticked;
                ticked = ticked.push(c);
                assert(ticked.drop_last() =~= t0);
            }
            if !c.is_dead() {
                kept.push(c);
            }
            i = i + 1;
        }
        self.carets = kept;
    }

    /// Adds a living effect of kind `ctype` at (`x`, `y`) facing `direct` after the others.
    pub fn create_caret(&mut self, x: isize, y: isize, ctype: CaretType, direct: Direction)
        ensures
            final(self).carets@ == old(self).carets@.push(Caret { ctype, x, y, direct, cond: crate::caret::CARET_ALIVE }),
            final(self).same_core(old(self)),
            final(self).same_keys(old(self)),
            final(self).speed_hack == old(self).speed_hack,
            final(self).shutdown == old(self).shutdown,
    {
        self.carets.push(Caret::new(x, y, ctype, direct));
    }

    /// Turns the double-speed debug mode on or off.
    pub fn set_speed_hack(&mut self, toggle: bool)
        ensures
            final(self).speed_hack == toggle,
            final(self).same_core(old(self)),
            final(self).same_keys(old(self)),
            final(self).carets@ == old(self).carets@,
            final(self).shutdown == old(self).shutdown,
    {
        self.speed_hack = toggle;
    }

    /// Asks the game to stop.
    pub fn shutdown(&mut self)
        ensures
            final(self).shutdown,
            final(self).same_core(old(self)),
            final(self).same_keys(old(self)),
            final(self).carets@ == old(self).carets@,
            final(self).speed_hack == old(self).speed_hack,
    {
        self.shutdown = true;
    }
}

} // verus!
