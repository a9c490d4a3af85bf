pub mod common;
pub mod game_state;
pub mod map;
pub mod player;
pub mod player_hit;
pub mod collision_laws;
pub mod npc;
pub mod caret;
pub mod shared_game_state;
