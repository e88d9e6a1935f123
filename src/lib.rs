//! Rules engine for a two-player card-capture game on a 4x4 board, with the
//! pure operations that a tree-search or rollout engine drives: legal-move
//! enumeration, state transition, terminal test, scoring and a seeded
//! rollout sampler.
//!
//! `model` holds the value types, `rules` defines the game mathematically,
//! `adapter` implements the operations against those definitions and
//! `laws` proves properties that hold of every position.

pub mod adapter;
pub mod laws;
pub mod model;
pub mod rules;
pub mod search;

pub use adapter::{Adapter, ApplyError};
pub use search::GameAdapter;
pub use model::{Action, Board, Card, Hand, HandEntry, Possession, State};
