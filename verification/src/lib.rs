//! A minimal 2D simulation world: a player-controlled shape moves on a
//! bounded canvas, avoiding collisions with placed scenery, while new
//! scenery can be spawned at random positions. The movement-and-collision
//! core is verified; rendering and window plumbing live outside the library.

pub mod colors;
pub mod game;
pub mod input;
pub mod metrics;
pub mod player;
pub mod scenery;
pub mod shapes;
