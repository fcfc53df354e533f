//! Decisions of the Linux (PipeWire) capture backend.

pub mod pipewire;
