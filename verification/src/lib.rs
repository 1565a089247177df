//! Profile switching logic for a local Codex configuration: classifying profile
//! directories, ordering accounts by remaining quota, rendering usage text, and
//! the decisions behind the terminal interface and the `auto` and `ping` commands.

pub mod config;
pub mod text;
pub mod usage;
pub mod profile;
pub mod ui;
