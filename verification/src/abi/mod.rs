//! Language-neutral records of the Session and extension ABIs and the
//! bounded handle tables behind them.

pub mod executable_extension;
pub mod codec;
pub mod extension;
pub mod layout;
pub mod session;
