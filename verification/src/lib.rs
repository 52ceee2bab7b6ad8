//! Core of an interactive polygon-drawing tool: the data types for points,
//! polygons and edit actions, and an action-log undo/redo engine whose visible
//! state is always the replay of its undo history.

pub mod action;
pub mod engine;
pub mod geometry;
pub mod input;
pub mod laws;
