//! Core logic of the chibi LLM-context manager: tool tables and predicates,
//! hook points, the tool registry, transcript entries and their conversion to
//! chat messages, task summaries, and structured file edits.

pub mod error;
pub mod text;
pub mod tools;
pub mod json;
pub mod state;
