use vegetable_junction::game::{Game, GameState};
use vegetable_junction::input::{map_key_to_intent, Intent, Key};
use vegetable_junction::metrics::{Metrics, WINDOW_HEIGHT, WINDOW_WIDTH};

fn start_game() -> Game {
    Game::display_items(GameState::Start, Metrics { width: WINDOW_WIDTH, height: WINDOW_HEIGHT })
}

#[test]
fn arrows_map_to_unit_deltas() {
    assert_eq!(map_key_to_intent(Key::Right), Intent::Move { dx: 1, dy: 0 });
    assert_eq!(map_key_to_intent(Key::Left), Intent::Move { dx: -1, dy: 0 });
    assert_eq!(map_key_to_intent(Key::Up), Intent::Move { dx: 0, dy: -1 });
    assert_eq!(map_key_to_intent(Key::Down), Intent::Move { dx: 0, dy: 1 });
}

#[test]
fn plant_key_maps_to_spawn_and_others_to_idle() {
    assert_eq!(map_key_to_intent(Key::T), Intent::SpawnTree);
    assert_eq!(map_key_to_intent(Key::Other), Intent::Idle);
}

#[test]
fn arrow_press_answers_delta_without_mutating() {
    let mut game = start_game();
    assert_eq!(game.on_key(&Key::Right), Some((1, 0)));
    assert_eq!(game.on_key(&Key::Left), Some((-1, 0)));
    assert_eq!(game.on_key(&Key::Up), Some((0, -1)));
    assert_eq!(game.on_key(&Key::Down), Some((0, 1)));
    assert_eq!(game.scenery.len(), 1);
    assert_eq!(game.user_player.location, (50, 50));
}

#[test]
fn plant_press_spawns_a_tree_inside_margin() {
    let mut game = start_game();
    assert_eq!(game.on_key(&Key::T), None);
    assert_eq!(game.scenery.len(), 2);
    let spawned = &game.scenery[1];
    assert!(100 <= spawned.location.0 && spawned.location.0 <= game.metrics.width - 100);
    assert!(100 <= spawned.location.1 && spawned.location.1 <= game.metrics.height - 100);
}

#[test]
fn other_press_does_nothing() {
    let mut game = start_game();
    assert_eq!(game.on_key(&Key::Other), None);
    assert_eq!(game.scenery.len(), 1);
}
