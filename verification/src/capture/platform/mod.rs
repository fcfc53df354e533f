//! Platform-independent decisions of the native capture backends.

pub mod windows;
pub mod macos;
pub mod linux;
