//! ticket-tracker: the decision logic of a Maoyan presale watcher.
//!
//! The library holds the configuration model and every rule that reads or
//! changes it, the classification of seat-lock runs, the flattening of show
//! listings, and the state machines behind the terminal UI. The program in
//! `app/` performs the I/O around it.

pub mod text;
pub mod paths;
pub mod json;
pub mod config;
pub mod strset;
pub mod lock;
pub mod maoyan;
pub mod presets;
pub mod notify;
pub mod tui;
pub mod cli;
