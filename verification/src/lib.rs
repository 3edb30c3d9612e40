//! A turn-based exploration simulation: a player moves through a small fixed
//! graph of locations, collects strength-boosting items, and must defeat a
//! guardian blocking the final location. Every state-transition rule is
//! stated as a contract and verified; rendering and input live outside the
//! library.

pub mod command;
pub mod world;
pub mod player;
pub mod combat;
pub mod engine;
