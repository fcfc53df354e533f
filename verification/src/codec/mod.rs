//! Opus codec configuration and the named transport profiles resolved to it.

pub mod config;
pub mod profile;
