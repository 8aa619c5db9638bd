//! Project initialization for a scaffolding tool: deciding how a target
//! directory gets its repository, which remotes it has, what configuration is
//! kept for it, and what build description is rendered from that.

pub mod error;
pub mod text;
pub mod remote;
pub mod cli;
pub mod bootstrap;
pub mod config;
pub mod render;
pub mod startup;
