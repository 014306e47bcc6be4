//! Capturing work: shell integration marks and episodes.
pub mod ai_cli;
pub mod graph;
pub mod sha256;
pub mod terminal;
