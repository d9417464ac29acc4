//! A script runner for JavaScript projects: it finds the nearest `package.json`,
//! resolves a name against the declared scripts and the executables under
//! `node_modules/.bin`, and describes the shell command to run. Commands that
//! manage dependencies are handed to the project's package manager.
//!
//! The library decides; it never touches the file system, the terminal or a
//! child process itself. A driver performs each [`run::Action`] and reports
//! what it saw as an [`run::Event`].

pub mod text;
pub mod install;
pub mod paths;
pub mod environment;
pub mod manifest;
pub mod project;
pub mod args;
pub mod command;
pub mod words;
pub mod outcome;
pub mod run;
pub mod update;
