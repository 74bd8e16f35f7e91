//! Board interaction and synchronisation engine for a shared nonogram board.
//!
//! The crate maps pointer input to tile indices under an aspect-aware layout,
//! decides what each press paints, applies paint actions to the puzzle grid
//! without echoing remote changes back, speaks the two-message wire protocol,
//! and sequences teardown and rebuild of the rendered board.

pub mod board;
pub mod cell;
pub mod grid;
pub mod layout;
pub mod mapper;
pub mod rebuild;
pub mod resolver;
pub mod scene;
pub mod wire;
