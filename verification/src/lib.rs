//! A verified dependency-resolution and installation engine for game
//! projects: manifest entries are classified into typed sources, each source
//! is materialized through a host capability, the materialized dependency's
//! own manifest is propagated into install directives and require paths, and
//! an idempotent installer reconciles those directives with the project tree.

pub mod classify;
pub mod config;
pub mod dependency;
pub mod dragonruby;
pub mod errors;
pub mod game_metadata;
pub mod host;
pub mod installer;
pub mod materializer;
pub mod paths;
pub mod resolver;
pub mod smaug;
pub mod source;
