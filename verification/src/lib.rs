//! Desktop audio capture contracts: source identity, selection, authorization
//! evidence, bounded runtime events, sample timelines, and the session ABI.

pub mod abi;
pub mod capture;
pub mod codec;
pub mod frame;
pub mod sharing;
pub mod text;
