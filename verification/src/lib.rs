//! A statement translator and fault-injected execution planner for a small
//! SQL shell: parsed statements become validated commands, each mutating
//! command passes a randomized chaos gate, and what is left is rendered as
//! the exact statement text and parameters to hand to the storage engine.

pub mod ast;
pub mod chaos;
pub mod command;
pub mod db;
pub mod execute;
pub mod guard;
pub mod laws;
pub mod names;
pub mod parse;
pub mod pipeline;
pub mod render;
pub mod text;
pub mod translate;
pub mod translation;

pub use crate::chaos::play_game;
pub use crate::command::ColumnDefinition;
pub use crate::db::WackyDB;
