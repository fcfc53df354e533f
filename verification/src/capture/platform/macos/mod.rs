//! Decisions of the macOS (Core Audio) capture backends.

pub mod asp;
pub mod authorization;
pub mod input;
pub mod input_format;
pub mod loopback;
pub mod tap;
