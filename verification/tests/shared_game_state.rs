use doukutsu_logic::caret::{Caret, CaretType};
use doukutsu_logic::common::{Direction, KeyState};
use doukutsu_logic::shared_game_state::{DataFlavor, FadeState, SharedGameState, RNG};

#[test]
fn new_state_has_every_game_flag_clear() {
    let s = SharedGameState::new(DataFlavor::Freeware, 1234);
    assert!(!s.game_flag(0));
    assert!(!s.game_flag(7999));
    assert_eq!(s.effect_rng, RNG(1234));
    assert_eq!(s.game_rng, RNG(0));
    assert_eq!(s.fade_state, FadeState::Hidden);
    assert!(s.carets.is_empty());
    assert_eq!(s.base_path, "/");
    let plus = SharedGameState::new(DataFlavor::CaveStoryPlusPc, 0);
    assert_eq!(plus.base_path, "/base/");
}

#[test]
fn key_trigger_reports_new_presses_once() {
    let mut s = SharedGameState::new(DataFlavor::Freeware, 0);
    s.key_state = KeyState(0b0101);
    s.update_key_trigger();
    assert_eq!(s.key_trigger.0, 0b0101);
    s.key_state = KeyState(0b0111);
    s.update_key_trigger();
    assert_eq!(s.key_trigger.0, 0b0010);
    s.update_key_trigger();
    assert_eq!(s.key_trigger.0, 0);
    s.key_state = KeyState(0b0001);
    s.update_key_trigger();
    assert_eq!(s.key_trigger.0, 0);
    assert_eq!(s.key_old, 0b0001);
}

#[test]
fn carets_are_added_and_dead_ones_dropped() {
    let mut s = SharedGameState::new(DataFlavor::Freeware, 0);
    s.create_caret(10, 20, CaretType::Zzz, Direction::Left);
    s.create_caret(-5, 20, CaretType::Bubble, Direction::Right);
    s.create_caret(30, 40, CaretType::Exhaust, Direction::Up);
    assert_eq!(s.carets.len(), 3);
    assert_eq!(s.carets[2], Caret { ctype: CaretType::Exhaust, x: 30, y: 40, direct: Direction::Up, cond: 0x80 });
    // each tick moves an effect left by 10 and ends those that leave x >= 0
    s.tick_carets(|c: Caret| {
        let x = c.x - 10;
        Caret { x, cond: if x < 0 { 0 } else { c.cond }, ..c }
    });
    assert_eq!(s.carets.len(), 2);
    assert_eq!(s.carets[0].x, 0);
    assert_eq!(s.carets[1].x, 20);
    assert!(s.carets.iter().all(|c| !c.is_dead()));
}

#[test]
fn reset_clears_game_but_keeps_switches() {
    let mut s = SharedGameState::new(DataFlavor::Freeware, 77);
    s.create_caret(1, 2, CaretType::Zzz, Direction::Left);
    s.key_state = KeyState(3);
    s.update_key_trigger();
    s.quake_counter = 9;
    s.fade_state = FadeState::Visible;
    s.set_speed_hack(true);
    s.god_mode = true;
    s.reset();
    assert_eq!(s.key_state.0, 0);
    assert_eq!(s.key_trigger.0, 0);
    assert_eq!(s.key_old, 0);
    assert_eq!(s.quake_counter, 0);
    assert_eq!(s.fade_state, FadeState::Hidden);
    assert!(s.carets.is_empty());
    assert!(s.new_npcs.is_empty());
    assert!(!s.game_flag(123));
    assert!(s.speed_hack);
    assert!(s.god_mode);
    assert_eq!(s.effect_rng, RNG(77));
}

#[test]
fn speed_hack_and_shutdown_switches() {
    let mut s = SharedGameState::new(DataFlavor::Freeware, 0);
    s.set_speed_hack(true);
    assert!(s.speed_hack);
    s.set_speed_hack(false);
    assert!(!s.speed_hack);
    assert!(!s.shutdown);
    s.shutdown();
    assert!(s.shutdown);
}

#[test]
fn data_flavor_detection_order() {
    assert_eq!(DataFlavor::detect(true, true, true, true), DataFlavor::CaveStoryPlusPc);
    assert_eq!(DataFlavor::detect(false, true, true, false), DataFlavor::CaveStoryPlusSwitch);
    assert_eq!(DataFlavor::detect(false, false, true, true), DataFlavor::Cse2e);
    assert_eq!(DataFlavor::detect(false, false, false, true), DataFlavor::NxEngineEvo);
    assert_eq!(DataFlavor::detect(false, false, false, false), DataFlavor::Freeware);
    assert_eq!(DataFlavor::CaveStoryPlusSwitch.base_path(), "/base/");
    assert_eq!(DataFlavor::Cse2e.base_path(), "/");
    assert!(DataFlavor::CaveStoryPlusPc.uses_plus_patches());
    assert!(!DataFlavor::CaveStoryPlusPc.uses_switch_patches());
    assert!(DataFlavor::CaveStoryPlusSwitch.uses_switch_patches());
    assert!(!DataFlavor::Freeware.uses_plus_patches());
}
