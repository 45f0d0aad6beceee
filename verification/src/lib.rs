//! Copies directory templates, named in a configuration file, to a target path.
//!
//! The library holds the decisions of the tool: where the configuration lives,
//! which template a key names, whether a target may be created, where a template
//! lands and what happens to every entry of it, and the text of every error.
//! Reading the disk, prompting and printing are left to the program around it.
//!
//! Paths are held as strings.

pub mod config;
pub mod copy;
pub mod error;
pub mod paths;
pub mod templates;
pub mod text;
