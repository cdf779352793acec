//! The world: owns the scenery collection and the controlled player,
//! validates movement against world bounds and scenery collisions, and
//! spawns new scenery at random positions.

use vstd::prelude::*;
use rand::Rng;
use crate::colors::{self, Colour};
use crate::input::{intent_of, map_key_to_intent, Intent, Key};
use crate::metrics::Metrics;
use crate::player::Player;
use crate::scenery::{Scenery, SceneryType};
use crate::shapes::{clamp_spec, Shape, MAX_COORD};

verus! {

/// The phase a world is constructed for. There is currently one.
#[derive(Clone, Copy, Debug)]
pub enum GameState {
    Start,
}

/// The answer of the movement validator: the accepted clamped location,
/// a rejection because some scenery collides there, or a distinct signal
/// that the player's shape has no movement support yet.
#[derive(Clone, Copy, Debug, PartialEq, Eq, Structural)]
pub enum MoveOutcome {
    Moved { x: i64, y: i64 },
    Blocked,
    Unsupported,
}

/// The world: the single controlled player, other players (drawn but not
/// yet moved by anything), the growable scenery collection, and the
/// canvas bounds.
#[derive(Debug)]
pub struct Game {
    pub user_player: Player,
    pub other_players: Vec<Player>,
    pub scenery: Vec<Scenery>,
    pub metrics: Metrics,
}

/// The world-bounds invariant for a circular player: the whole shape stays
/// on-canvas. A rectangle player has no bounds support yet, so nothing is
/// demanded of it.
pub open spec fn player_in_bounds(player: Player, metrics: Metrics) -> bool {
    player.shape matches Shape::Circle { radius } ==> {
        &&& radius <= player.location.0 <= metrics.width - radius
        &&& radius <= player.location.1 <= metrics.height - radius
    }
}

/// The candidate location for a circular player: raw deltas scaled by the
/// player's size, added to its location, then each axis independently
/// saturated into the bounds the radius leaves on the canvas.
pub open spec fn candidate_spec(player: Player, metrics: Metrics, movement: (i64, i64)) -> (int, int)
    recommends
        player.shape is Circle,
{
    let radius = player.shape->radius;
    (
        clamp_spec(
            player.location.0 + movement.0 * player.size.0,
            radius as int,
            metrics.width - radius,
        ),
        clamp_spec(
            player.location.1 + movement.1 * player.size.1,
            radius as int,
            metrics.height - radius,
        ),
    )
}

/// Whether any scenery entry collides with the given player.
pub open spec fn any_scenery_collides(scenery: Seq<Scenery>, player: Player) -> bool {
    exists|i: int| 0 <= i < scenery.len() && scenery[i].collides_spec(player)
}

/// What the movement validator returns: a rectangle player is unsupported;
/// otherwise the clamped candidate is tested against every scenery entry,
/// and the move is accepted exactly when none collides.
pub open spec fn move_result(game: Game, player: Player, movement: (i64, i64)) -> MoveOutcome {
    if player.shape is Rectangle {
        MoveOutcome::Unsupported
    } else {
        let c = candidate_spec(player, game.metrics, movement);
        let future = Player { location: (c.0 as i64, c.1 as i64), ..player };
        if any_scenery_collides(game.scenery@, future) {
            MoveOutcome::Blocked
        } else {
            MoveOutcome::Moved { x: c.0 as i64, y: c.1 as i64 }
        }
    }
}

/// The scenery kind the plant key spawns.
pub open spec fn standard_tree() -> SceneryType {
    SceneryType::Tree { base_width: 45, base_height: 120, top_radius: 60 }
}

/// The world grew by exactly one scenery entry of the given kind, placed
/// inside the 100-unit spawn margin; everything else is unchanged.
pub open spec fn spawned_scenery(pre: Game, post: Game, kind: SceneryType) -> bool {
    &&& post.user_player == pre.user_player
    &&& post.other_players == pre.other_players
    &&& post.metrics == pre.metrics
    &&& post.scenery@.len() == pre.scenery@.len() + 1
    &&& post.scenery@.subrange(0, pre.scenery@.len() as int) == pre.scenery@
    &&& post.scenery@.last().wf()
    &&& post.scenery@.last().type_ == kind
    &&& 100 <= post.scenery@.last().location.0 < pre.metrics.width - 100
    &&& 100 <= post.scenery@.last().location.1 < pre.metrics.height - 100
}

/// The initial player: a red circle of radius 50 at (50, 50).
pub open spec fn initial_player() -> Player {
    Player {
        shape: Shape::Circle { radius: 50 },
        size: (50, 50),
        location: (50, 50),
        color: Colour { red: 255, green: 0, blue: 0, alpha: 255 },
    }
}

/// The initial scenery: one tree at (500, 600).
pub open spec fn initial_tree() -> Scenery {
    Scenery { type_: standard_tree(), location: (500, 600) }
}

/// Saturate `value` into `[min, max]`: plain clamping, not a bounce.
fn clamp(value: i64, min: i64, max: i64) -> (r: i64)
    ensures
        r == clamp_spec(value as int, min as int, max as int),
{
    if value < min {
        min
    } else if value > max {
        max
    } else {
        value
    }
}

/// Relies on rand::Rng::gen_range on the thread-local generator from
/// rand::thread_rng: the sample lies in the given half-open range. The
/// call panics only on an empty range, which the precondition excludes.
#[verifier::external_body]
fn random_in_range(low: i64, high: i64) -> (r: i64)
    requires
        low < high,
    ensures
        low <= r < high,
{
    rand::thread_rng().gen_range(low..high)
}

impl Game {
    /// All scenery entries are well-formed, the player is well-formed and
    /// satisfies the world-bounds invariant, and the canvas is usable.
    pub open spec fn wf(self) -> bool {
        &&& self.metrics.wf()
        &&& self.user_player.wf()
        &&& player_in_bounds(self.user_player, self.metrics)
        &&& forall|i: int| 0 <= i < self.scenery@.len() ==> self.scenery@[i].wf()
    }

    /// Construct the world for the given phase: the initial player and one
    /// tree, on a canvas of the given bounds.
    pub fn display_items(state: GameState, metrics: Metrics) -> (game: Game)
        requires
            metrics.wf(),
        ensures
            game.wf(),
            game.metrics == metrics,
            game.user_player == initial_player(),
            game.other_players@ == Seq::<Player>::empty(),
            game.scenery@ == seq![initial_tree()],
    {
        match state {
            GameState::Start => {
                let player = Player {
                    shape: Shape::Circle { radius: 50 },
                    size: (50, 50),
                    location: (50, 50),
                    color: colors::red(),
                };
                let tree = Scenery {
                    type_: SceneryType::Tree {
                        base_width: 45,
                        base_height: 120,
                        top_radius: 60,
                    },
                    location: (500, 600),
                };
                let mut scenery: Vec<Scenery> = Vec::new();
                scenery.push(tree);
                proof {
                    assert(scenery@ == seq![initial_tree()]) by {
                        assert(scenery@ =~= seq![initial_tree()]);
                    }
                }
                Game { user_player: player, other_players: Vec::new(), scenery, metrics }
            },
        }
    }

    /// The movement validator. Computes the candidate location (deltas
    /// scaled by the player's size, clamped to the bounds its radius
    /// leaves), tests a hypothetical player there against every scenery
    /// entry, and accepts exactly when none collides. Does not mutate:
    /// committing an accepted location is the caller's job. A rectangle
    /// player gets the distinct unsupported signal.
    #[verifier::loop_isolation(false)]
    pub fn move_player(&self, player: &Player, movement: (i64, i64)) -> (r: MoveOutcome)
        requires
            self.wf(),
            player.wf(),
            player_in_bounds(*player, self.metrics),
            -MAX_COORD <= movement.0 <= MAX_COORD,
            -MAX_COORD <= movement.1 <= MAX_COORD,
        ensures
            r == move_result(*self, *player, movement),
    {
        let (min_x, max_x, min_y, max_y) = match player.shape {
            Shape::Circle { radius } => (
                radius,
                self.metrics.width - radius,
                radius,
                self.metrics.height - radius,
            ),
            Shape::Rectangle { .. } => {
                return MoveOutcome::Unsupported;
            },
        };
        proof {
            assert(-MAX_COORD * MAX_COORD <= movement.0 * player.size.0 <= MAX_COORD * MAX_COORD
                && -MAX_COORD * MAX_COORD <= movement.1 * player.size.1
                    <= MAX_COORD * MAX_COORD) by (nonlinear_arith)
                requires
                    -MAX_COORD <= movement.0 <= MAX_COORD,
                    0 < player.size.0 <= MAX_COORD,
                    -MAX_COORD <= movement.1 <= MAX_COORD,
                    0 < player.size.1 <= MAX_COORD;
        }
        let x = clamp(player.location.0 + movement.0 * player.size.0, min_x, max_x);
        let y = clamp(player.location.1 + movement.1 * player.size.1, min_y, max_y);
        let future_player = Player {
            shape: player.shape,
            size: player.size,
            location: (x, y),
            color: player.color,
        };
        proof {
            let c: (int, int) = candidate_spec(*player, self.metrics, movement);
            assert(c.0 == x as int && c.1 == y as int);
            assert(future_player == (Player { location: (c.0 as i64, c.1 as i64), ..*player }));
        }
        let scenery_count = self.scenery.len();
        let mut i: usize = 0;
        while i < scenery_count
            invariant
                i <= scenery_count,
                forall|j: int| 0 <= j < i ==> !self.scenery@[j].collides_spec(future_player),
            decreases scenery_count - i,
        {
            if self.scenery[i].collides(&future_player) {
                return MoveOutcome::Blocked;
            }
            i = i + 1;
        }
        MoveOutcome::Moved { x, y }
    }

    /// Decode one key press. Arrow keys answer the movement delta for the
    /// caller to validate and commit; the plant key spawns a tree at a
    /// random position; any other key does nothing.
    pub fn on_key(&mut self, key: &Key) -> (r: Option<(i64, i64)>)
        requires
            old(self).wf(),
        ensures
            final(self).wf(),
            (match intent_of(*key) {
                Intent::Move { dx, dy } => r == Some((dx, dy)) && *final(self) == *old(self),
                Intent::SpawnTree => r is None && spawned_scenery(
                    *old(self),
                    *final(self),
                    standard_tree(),
                ),
                Intent::Idle => r is None && *final(self) == *old(self),
            }),
    {
        match map_key_to_intent(*key) {
            Intent::Move { dx, dy } => Some((dx, dy)),
            Intent::SpawnTree => {
                self.handle_letter(key);
                None
            },
            Intent::Idle => None,
        }
    }

    /// React to a letter key: the plant key spawns a tree, every other
    /// letter does nothing.
    pub fn handle_letter(&mut self, key: &Key)
        requires
            old(self).wf(),
        ensures
            final(self).wf(),
            *key == Key::T ==> spawned_scenery(*old(self), *final(self), standard_tree()),
            *key != Key::T ==> *final(self) == *old(self),
    {
        match key {
            Key::T => {
                let scene_type = SceneryType::Tree {
                    base_width: 45,
                    base_height: 120,
                    top_radius: 60,
                };
                self.make_scenery(scene_type);
            },
            _ => {},
        }
    }

    /// Spawn one scenery entry of the given kind at a position drawn
    /// uniformly inside the 100-unit margin of the canvas. No uniqueness
    /// or overlap check against existing scenery: new scenery may overlap,
    /// which is accepted behavior.
    pub fn make_scenery(&mut self, scenery_type: SceneryType)
        requires
            old(self).wf(),
            scenery_type.wf(),
        ensures
            final(self).wf(),
            spawned_scenery(*old(self), *final(self), scenery_type),
    {
        let ran_x = random_in_range(100, self.metrics.width - 100);
        let ran_y = random_in_range(100, self.metrics.height - 100);
        self.add_scenery((ran_x, ran_y), scenery_type);
        proof {
            assert(self.scenery@.subrange(0, old(self).scenery@.len() as int)
                =~= old(self).scenery@);
        }
    }

    /// Append a scenery entry of the given kind at the given location.
    pub fn add_scenery(&mut self, location: (i64, i64), scenery_type: SceneryType)
        ensures
            final(self).user_player == old(self).user_player,
            final(self).other_players == old(self).other_players,
            final(self).metrics == old(self).metrics,
            final(self).scenery@ == old(self).scenery@.push(
                (Scenery { type_: scenery_type, location: location }),
            ),
    {
        let scenery = Scenery { type_: scenery_type, location: location };
        self.scenery.push(scenery);
    }
}

/// For every movement delta, the clamped candidate location of a circular
/// player keeps the whole shape on-canvas: each axis lands between the
/// radius and the canvas extent minus the radius.
pub proof fn lemma_candidate_in_bounds(player: Player, metrics: Metrics, movement: (i64, i64))
    requires
        player.shape is Circle,
        player_in_bounds(player, metrics),
    ensures
        ({
            let c = candidate_spec(player, metrics, movement);
            &&& player.shape->radius <= c.0 <= metrics.width - player.shape->radius
            &&& player.shape->radius <= c.1 <= metrics.height - player.shape->radius
        }),
{
}

/// A zero delta never moves: the candidate is the current location, and
/// the validator accepts exactly when the player's current position is
/// already collision-free, answering that same location.
pub proof fn lemma_zero_delta_keeps_location(game: Game, player: Player)
    requires
        player.shape is Circle,
        player_in_bounds(player, game.metrics),
    ensures
        candidate_spec(player, game.metrics, (0, 0))
            == (player.location.0 as int, player.location.1 as int),
        move_result(game, player, (0, 0)) == (if any_scenery_collides(game.scenery@, player) {
            MoveOutcome::Blocked
        } else {
            MoveOutcome::Moved { x: player.location.0, y: player.location.1 }
        }),
{
    let c: (int, int) = candidate_spec(player, game.metrics, (0, 0));
    assert(c.0 == player.location.0 && c.1 == player.location.1);
    assert((Player { location: (c.0 as i64, c.1 as i64), ..player }) == player);
}

} // verus!
