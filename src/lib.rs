//! A reflex game on a ring: a needle sweeps around, and the player scores by
//! committing while it overlaps a target zone that then moves elsewhere.
//!
//! `geometry` builds the two wedges, `game` holds the state of a round and
//! its transitions, and `rounds` states what holds over any run of commits.
pub mod game;
pub mod geometry;
pub mod rounds;
