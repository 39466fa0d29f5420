//! Rules of a side-scrolling flap-and-dodge arcade game.
//!
//! The crate holds the game's decisions as plain values: when an obstacle
//! pair appears, where it is placed, how it scrolls, what a flap does to the
//! player, and how the opening scene is laid out. Lengths and positions are
//! whole world units, time is counted in nanoseconds. A front end feeds in
//! frame times and input edges and turns the values that come back into
//! engine entities.

pub mod timer;
pub mod geometry;
pub mod rng;
pub mod pipes;
pub mod player;
pub mod scene;
