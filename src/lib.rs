//! A recursive file finder: argument resolution, search configuration,
//! per-entry match rules and the decisions of a depth-first walk.
//! Reading directories and drawing on the terminal is left to the caller.

pub mod text;
pub mod args;
pub mod pattern;
pub mod mime;
pub mod config;
pub mod matcher;
pub mod walk;
