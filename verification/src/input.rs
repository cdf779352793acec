//! The input mapper: translates abstract key identifiers into movement or
//! spawn intents. Stateless and pure; the platform layer converts its own
//! key events into [`Key`] values before calling in.

use vstd::prelude::*;

verus! {

/// An abstract key identifier: the four arrow keys, the designated
/// "plant" key, or anything else (all other keys, letters included).
#[derive(Clone, Copy, Debug, PartialEq, Eq, Structural)]
pub enum Key {
    Right,
    Left,
    Up,
    Down,
    T,
    Other,
}

/// A decoded user action, independent of the raw input device: move by a
/// unit delta on one axis, spawn a tree, or do nothing.
#[derive(Clone, Copy, Debug, PartialEq, Eq, Structural)]
pub enum Intent {
    Move { dx: i64, dy: i64 },
    SpawnTree,
    Idle,
}

/// What each key decodes to: the four arrows give a unit move on a single
/// axis, the plant key spawns a tree, and every other key does nothing.
pub open spec fn intent_of(key: Key) -> Intent {
    match key {
        Key::Right => Intent::Move { dx: 1, dy: 0 },
        Key::Left => Intent::Move { dx: -1i64, dy: 0 },
        Key::Up => Intent::Move { dx: 0, dy: -1i64 },
        Key::Down => Intent::Move { dx: 0, dy: 1 },
        Key::T => Intent::SpawnTree,
        Key::Other => Intent::Idle,
    }
}

pub fn map_key_to_intent(key: Key) -> (r: Intent)
    ensures
        r == intent_of(key),
{
    match key {
        Key::Right => Intent::Move { dx: 1, dy: 0 },
        Key::Left => Intent::Move { dx: -1i64, dy: 0 },
        Key::Up => Intent::Move { dx: 0, dy: -1i64 },
        Key::Down => Intent::Move { dx: 0, dy: 1 },
        Key::T => Intent::SpawnTree,
        Key::Other => Intent::Idle,
    }
}

} // verus!
