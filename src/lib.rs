//! Shell activation for a Node.js version manager: the script text that wires
//! per-session version switching into an interactive shell.

pub mod text;
pub mod shell;
pub mod config;
pub mod multishell;
pub mod env;
