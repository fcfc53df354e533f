//! Decisions of the Windows (WASAPI) capture backend.

pub mod process_identity;
pub mod open_lifecycle;
pub mod packet_delivery;
pub mod runtime_lifecycle;
pub mod selection;
pub mod capture_failure;
pub mod process_instance;
pub mod capture_loop;
pub mod discovery;
