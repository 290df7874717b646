//! Decision core of a dotfiles manager that keeps a bare repository at
//! `<home>/.dots` and treats the home directory as its working tree.
//!
//! The crate touches neither the filesystem nor the repository. It parses
//! the command line, asks the environment for the home directory, works out
//! which paths are involved, and hands its caller one [`session::Action`] at
//! a time; the caller performs the action and reports how it went.

pub mod error;
pub mod path;
pub mod cli;
pub mod session;
