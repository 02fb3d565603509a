//! The logic of the CLI's commands.

pub mod pkg;
pub mod alias;
pub mod plugins;
pub mod git;
pub mod help;
pub mod manage;
pub mod setup;
pub mod system;
