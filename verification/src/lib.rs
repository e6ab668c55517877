//! Destination-side handling of inter-module messages for the game and
//! global modules: what each message does to the rows it touches, which
//! messages are admitted, and where each one is routed.
pub mod game;
pub mod global;
pub mod text;
pub mod rows;
