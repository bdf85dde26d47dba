//! A small grid-based snake simulation: a fixed-length chain of square
//! segments that advances one step per tick, rejects heading reversals,
//! and freezes permanently once its head touches the surface boundary.

pub mod snake;
pub mod game;
