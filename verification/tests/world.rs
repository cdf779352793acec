use vegetable_junction::colors::{black, blue, green, red, white, Colour};
use vegetable_junction::game::{Game, GameState, MoveOutcome};
use vegetable_junction::metrics::{Metrics, WINDOW_HEIGHT, WINDOW_WIDTH};
use vegetable_junction::player::Player;
use vegetable_junction::scenery::SceneryType;
use vegetable_junction::shapes::Shape;

fn start_game() -> Game {
    Game::display_items(GameState::Start, Metrics { width: WINDOW_WIDTH, height: WINDOW_HEIGHT })
}

#[test]
fn initial_world_contents() {
    let game = start_game();
    assert_eq!(game.metrics.width, 1500);
    assert_eq!(game.metrics.height, 900);
    assert_eq!(game.user_player.location, (50, 50));
    assert_eq!(game.user_player.size, (50, 50));
    assert!(matches!(game.user_player.shape, Shape::Circle { radius: 50 }));
    assert_eq!(game.user_player.color, Colour { red: 255, green: 0, blue: 0, alpha: 255 });
    assert!(game.other_players.is_empty());
    assert_eq!(game.scenery.len(), 1);
    assert_eq!(game.scenery[0].location, (500, 600));
    let SceneryType::Tree { base_width, base_height, top_radius } = game.scenery[0].type_;
    assert_eq!((base_width, base_height, top_radius), (45, 120, 60));
}

#[test]
fn move_left_at_minimum_clamps_and_is_accepted() {
    // Radius-50 circle at (50, 50) on a 1500x900 canvas, delta (-1, 0):
    // the raw candidate x is 0, clamped back up to 50, and nothing
    // collides there, so the move is accepted with the location unchanged.
    let game = start_game();
    let outcome = game.move_player(&game.user_player, (-1, 0));
    assert_eq!(outcome, MoveOutcome::Moved { x: 50, y: 50 });
}

#[test]
fn zero_delta_returns_current_location() {
    let game = start_game();
    let outcome = game.move_player(&game.user_player, (0, 0));
    assert_eq!(outcome, MoveOutcome::Moved { x: 50, y: 50 });
}

#[test]
fn zero_delta_on_colliding_position_is_blocked() {
    // Zero movement must mirror the current position's own collision
    // status: a player standing inside the trunk stays blocked.
    let game = start_game();
    let player = Player { location: (520, 650), ..game.user_player };
    let outcome = game.move_player(&player, (0, 0));
    assert_eq!(outcome, MoveOutcome::Blocked);
}

#[test]
fn color_constants() {
    assert_eq!(red(), Colour { red: 255, green: 0, blue: 0, alpha: 255 });
    assert_eq!(green(), Colour { red: 0, green: 255, blue: 0, alpha: 255 });
    assert_eq!(blue(), Colour { red: 0, green: 0, blue: 255, alpha: 255 });
    assert_eq!(white(), Colour { red: 255, green: 255, blue: 255, alpha: 255 });
    assert_eq!(black(), Colour { red: 0, green: 0, blue: 0, alpha: 255 });
}

#[test]
fn candidate_inside_trunk_is_blocked() {
    // The starting tree's trunk covers [500, 545] x [600, 720]. A player
    // at (520, 600) moved by (0, 1) lands at the candidate (520, 650),
    // inside the trunk, so the move is rejected.
    let game = start_game();
    let player = Player { location: (520, 600), ..game.user_player };
    let outcome = game.move_player(&player, (0, 1));
    assert_eq!(outcome, MoveOutcome::Blocked);
}

#[test]
fn rectangle_player_move_is_unsupported() {
    let game = start_game();
    let player = Player {
        shape: Shape::Rectangle { width: 40, height: 40 },
        ..game.user_player
    };
    let outcome = game.move_player(&player, (1, 0));
    assert_eq!(outcome, MoveOutcome::Unsupported);
}

#[test]
fn large_delta_saturates_at_far_edge() {
    // Delta (100, 0) scaled by size 50 overshoots: x saturates at
    // width - radius = 1450, where nothing collides.
    let game = start_game();
    let outcome = game.move_player(&game.user_player, (100, 0));
    assert_eq!(outcome, MoveOutcome::Moved { x: 1450, y: 50 });
}

#[test]
fn ordinary_move_right_is_accepted() {
    let game = start_game();
    let outcome = game.move_player(&game.user_player, (1, 0));
    assert_eq!(outcome, MoveOutcome::Moved { x: 100, y: 50 });
}

#[test]
fn spawned_scenery_stays_inside_margin() {
    // Spawn 100 scenery entries; every location must land inside the
    // 100-unit margin of the canvas.
    let mut game = start_game();
    for _ in 0..100 {
        game.make_scenery(SceneryType::Tree {
            base_width: 45,
            base_height: 120,
            top_radius: 60,
        });
    }
    assert_eq!(game.scenery.len(), 101);
    for scene in &game.scenery[1..] {
        assert!(100 <= scene.location.0 && scene.location.0 <= game.metrics.width - 100);
        assert!(100 <= scene.location.1 && scene.location.1 <= game.metrics.height - 100);
    }
}

#[test]
fn add_scenery_appends_given_entry() {
    let mut game = start_game();
    let kind = SceneryType::Tree { base_width: 1, base_height: 2, top_radius: 3 };
    game.add_scenery((250, 350), kind);
    assert_eq!(game.scenery.len(), 2);
    let added = &game.scenery[1];
    assert_eq!(added.location, (250, 350));
    let SceneryType::Tree { base_width, base_height, top_radius } = added.type_;
    assert_eq!((base_width, base_height, top_radius), (1, 2, 3));
}
