//! Talking to the keyboard over its USB serial port.

pub mod port;
pub mod scan;
pub mod state;
