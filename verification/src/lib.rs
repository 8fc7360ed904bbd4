//! Choosing an external merge or diff tool, preparing what it is started on, and judging what it
//! leaves behind.

pub mod command;
pub mod edit_diff;
pub mod errors;
pub mod interpolate;
pub mod outcome;
pub mod read_config;
pub mod readonly;
pub mod repo;
pub mod run_mergetool;
pub mod settings;
pub mod table;
pub mod text;
pub mod tool;
