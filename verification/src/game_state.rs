use vstd::prelude::*;
use crate::common::KeyState;
use crate::map::TileMap;

verus! {

/// The stage being played.
pub struct Stage {
    pub map: TileMap,
}

/// What map collisions read of the running game: the keys held and the stage.
pub struct GameState {
    pub key_state: KeyState,
    pub stage: Stage,
}

} // verus!
