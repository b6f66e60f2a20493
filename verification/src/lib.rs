//! Verified game logic of the bell-jumping game: score digits, identifiers
//! and their wire encoding, bird and player state machines, and the
//! bookkeeping of the background, tutorial and network world.

pub mod digits;
pub mod ids;
pub mod bird;
pub mod player;
pub mod tutorial;
pub mod world;
pub mod pointer;
pub mod background;
pub mod difficulty;
pub mod connection;
pub mod shader;
pub mod debug;
pub mod texture;
