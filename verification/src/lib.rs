//! Core logic of the `proto` command-line companion: package-manager
//! command construction, plugin references and registry, shell alias
//! editing, version comparison and terminal styling.

pub mod text;
pub mod update;
pub mod seqs;
pub mod plugins;
pub mod utils;
pub mod style;
pub mod commands;
pub mod completions;
pub mod globals;
pub mod cli;
