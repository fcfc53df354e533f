//! Desktop capture contracts: identity, selection, authorization evidence,
//! bounded runtime events, observations, and sample-derived timelines.

pub mod identity;
pub mod selection;
pub mod authorization;
pub mod timeline;
pub mod events;
pub mod observations;
pub mod lifecycle_registry;
pub mod query;
pub mod frame_stream;
pub mod frame_framing;
pub mod input_order;
pub mod platform;
